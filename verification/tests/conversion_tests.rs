use gmanager_vault::db_models::{Group, Pagination, Tag};
use gmanager_vault::groups::{
    db_to_frontend_group, frontend_to_db_create as group_frontend_to_db_create,
    frontend_to_db_update as group_frontend_to_db_update, CreateGroupPayload, UpdateGroupPayload,
};
use gmanager_vault::tags::{
    db_to_frontend_tag, frontend_to_db_create as tag_frontend_to_db_create, CreateTagPayload,
};

#[test]
fn groups_test_frontend_to_db_create_valid() {
    let payload = CreateGroupPayload {
        name: "Work".to_string(),
        color: Some("#ff0000".to_string()),
        sort_order: Some(1),
    };

    let result = group_frontend_to_db_create(payload).unwrap();

    assert_eq!(result.name, "Work");
    assert_eq!(result.color, "#ff0000");
    assert_eq!(result.sort_order, 1);
}

#[test]
fn groups_test_frontend_to_db_create_defaults() {
    let payload = CreateGroupPayload {
        name: "Personal".to_string(),
        color: None,
        sort_order: None,
    };

    let result = group_frontend_to_db_create(payload).unwrap();

    assert_eq!(result.name, "Personal");
    assert_eq!(result.color, "#6366f1");
    assert_eq!(result.sort_order, 0);
}

#[test]
fn groups_test_frontend_to_db_create_empty_name_fails() {
    let payload = CreateGroupPayload {
        name: "".to_string(),
        color: None,
        sort_order: None,
    };

    let result = group_frontend_to_db_create(payload);
    assert!(result.is_err());
}

#[test]
fn groups_test_frontend_to_db_create_whitespace_name_fails() {
    let payload = CreateGroupPayload {
        name: "   ".to_string(),
        color: None,
        sort_order: None,
    };

    let result = group_frontend_to_db_create(payload);
    assert!(result.is_err());
}

#[test]
fn groups_test_frontend_to_db_create_invalid_color_fails() {
    let payload = CreateGroupPayload {
        name: "Test".to_string(),
        color: Some("invalid".to_string()),
        sort_order: None,
    };

    let result = group_frontend_to_db_create(payload);
    assert!(result.is_err());
}

#[test]
fn groups_test_db_to_frontend_conversion() {
    let db_group = Group {
        id: 123,
        name: "Work".to_string(),
        color: "#3b82f6".to_string(),
        sort_order: 1,
        created_at: "2024-01-01T00:00:00Z".to_string(),
    };

    let result = db_to_frontend_group(db_group);

    assert_eq!(result.id, "123");
    assert_eq!(result.name, "Work");
    assert_eq!(result.color, "#3b82f6");
    assert_eq!(result.sort_order, 1);
    assert_eq!(result.created_at, "2024-01-01T00:00:00Z");
}

#[test]
fn tags_test_frontend_to_db_create_valid() {
    let payload = CreateTagPayload {
        name: "important".to_string(),
        color: Some("#ef4444".to_string()),
    };

    let result = tag_frontend_to_db_create(payload).unwrap();

    assert_eq!(result.name, "important");
    assert_eq!(result.color, "#ef4444");
}

#[test]
fn tags_test_frontend_to_db_create_defaults() {
    let payload = CreateTagPayload {
        name: "work".to_string(),
        color: None,
    };

    let result = tag_frontend_to_db_create(payload).unwrap();

    assert_eq!(result.name, "work");
    assert_eq!(result.color, "#10b981");
}

#[test]
fn tags_test_frontend_to_db_create_empty_name_fails() {
    let payload = CreateTagPayload {
        name: "".to_string(),
        color: None,
    };

    let result = tag_frontend_to_db_create(payload);
    assert!(result.is_err());
}

#[test]
fn tags_test_frontend_to_db_create_whitespace_name_fails() {
    let payload = CreateTagPayload {
        name: "   ".to_string(),
        color: None,
    };

    let result = tag_frontend_to_db_create(payload);
    assert!(result.is_err());
}

#[test]
fn tags_test_frontend_to_db_create_invalid_color_fails() {
    let payload = CreateTagPayload {
        name: "test".to_string(),
        color: Some("invalid".to_string()),
    };

    let result = tag_frontend_to_db_create(payload);
    assert!(result.is_err());
}

#[test]
fn tags_test_db_to_frontend_conversion() {
    let db_tag = Tag {
        id: 456,
        name: "critical".to_string(),
        color: "#dc2626".to_string(),
        created_at: "2024-01-01T00:00:00Z".to_string(),
    };

    let result = db_to_frontend_tag(db_tag);

    assert_eq!(result.id, "456");
    assert_eq!(result.name, "critical");
    assert_eq!(result.color, "#dc2626");
    assert_eq!(result.created_at, "2024-01-01T00:00:00Z");
}

#[test]
fn test_trimmed_name_is_kept() {
    let payload = CreateGroupPayload {
        name: "  Work  ".to_string(),
        color: None,
        sort_order: None,
    };

    let result = group_frontend_to_db_create(payload).unwrap();
    assert_eq!(result.name, "Work");
}

#[test]
fn test_short_hex_color_is_accepted() {
    let payload = CreateTagPayload {
        name: "brief".to_string(),
        color: Some("#abc".to_string()),
    };

    let result = tag_frontend_to_db_create(payload).unwrap();
    assert_eq!(result.color, "#abc");
}

#[test]
fn test_negative_id_renders_with_sign() {
    let db_group = Group {
        id: -7,
        name: "n".to_string(),
        color: "#000000".to_string(),
        sort_order: 0,
        created_at: "2024-01-01T00:00:00Z".to_string(),
    };

    let result = db_to_frontend_group(db_group);
    assert_eq!(result.id, "-7");
}

#[test]
fn test_group_update_parses_id_and_trims_name() {
    let payload = UpdateGroupPayload {
        id: "12".to_string(),
        name: Some(" Team ".to_string()),
        color: None,
        sort_order: None,
    };

    let (id, data) = group_frontend_to_db_update(payload).unwrap();
    assert_eq!(id, 12);
    assert_eq!(data.name, "Team");
    assert_eq!(data.color, "");
    assert_eq!(data.sort_order, 0);
}

#[test]
fn test_group_update_without_name_succeeds() {
    let payload = UpdateGroupPayload {
        id: "3".to_string(),
        name: None,
        color: Some("#123456".to_string()),
        sort_order: Some(5),
    };

    let (id, data) = group_frontend_to_db_update(payload).unwrap();
    assert_eq!(id, 3);
    assert_eq!(data.name, "");
    assert_eq!(data.color, "#123456");
    assert_eq!(data.sort_order, 5);
}

#[test]
fn test_group_update_bad_id_fails() {
    let payload = UpdateGroupPayload {
        id: "not-a-number".to_string(),
        name: None,
        color: None,
        sort_order: None,
    };

    assert!(group_frontend_to_db_update(payload).is_err());
}

#[test]
fn test_pagination_new() {
    let p = Pagination::new(40, 20);
    assert_eq!(p.offset, 40);
    assert_eq!(p.limit, 20);
}
