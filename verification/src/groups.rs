//! Group conversions between the persisted model and the value handed
//! to the user interface.

use vstd::prelude::*;

use crate::db_models::{CreateGroup, Group};
use crate::textnum::{i64_to_string, parse_i64, spec_i64_text, spec_parse_in_range};
use crate::textutil::{is_valid_color, spec_trim, spec_valid_color, trim_str};
use vstd::string::{StrSliceExecFns, StringExecFns};

verus! {

/// A group as the user interface sees it.
pub struct GroupDto {
    pub id: String,
    pub name: String,
    pub color: String,
    pub sort_order: i32,
    pub created_at: String,
}

/// Group creation payload from the user interface.
pub struct CreateGroupPayload {
    pub name: String,
    pub color: Option<String>,
    pub sort_order: Option<i32>,
}

/// Group update payload from the user interface.
pub struct UpdateGroupPayload {
    pub id: String,
    pub name: Option<String>,
    pub color: Option<String>,
    pub sort_order: Option<i32>,
}

/// Failure of a group operation.
#[derive(Debug, Clone)]
pub enum GroupError {
    /// The payload is not acceptable.
    InvalidInput(String),
    /// No group with the requested identifier exists.
    NotFound(String),
}

/// The color a creation payload denotes: the given one, or the default.
pub open spec fn spec_group_color(color: Option<String>) -> Seq<char> {
    match color {
        Some(c) => c@,
        None => "#6366f1"@,
    }
}

/// Converts a persisted group to its user-interface form; the numeric
/// identifier becomes decimal text.
pub fn db_to_frontend_group(db_group: Group) -> (r: GroupDto)
    ensures
        r.id@ == spec_i64_text(db_group.id as int),
        r.name@ == db_group.name@,
        r.color@ == db_group.color@,
        r.sort_order == db_group.sort_order,
        r.created_at@ == db_group.created_at@,
{
    GroupDto {
        id: i64_to_string(db_group.id),
        name: db_group.name,
        color: db_group.color,
        sort_order: db_group.sort_order,
        created_at: db_group.created_at,
    }
}

/// Validates a creation payload: the trimmed name must be non-empty and
/// the color (defaulted when absent) must have the accepted shape.
pub fn frontend_to_db_create(payload: CreateGroupPayload) -> (r: Result<CreateGroup, GroupError>)
    ensures
        spec_trim(payload.name@).len() == 0 ==> (r matches Err(e) && e is InvalidInput),
        spec_trim(payload.name@).len() > 0 && !spec_valid_color(spec_group_color(payload.color))
            ==> (r matches Err(e) && e is InvalidInput),
        spec_trim(payload.name@).len() > 0 && spec_valid_color(spec_group_color(payload.color))
            ==> (r matches Ok(g) && g.name@ == spec_trim(payload.name@) && g.color@
            == spec_group_color(payload.color) && g.sort_order == (match payload.sort_order {
            Some(v) => v,
            None => 0,
        })),
{
    let name = trim_str(payload.name.as_str());
    if name.as_str().unicode_len() == 0 {
        return Err(GroupError::InvalidInput(String::from_str("Group name is required")));
    }
    let color = match payload.color {
        Some(c) => c,
        None => String::from_str("#6366f1"),
    };
    if !is_valid_color(color.as_str()) {
        return Err(
            GroupError::InvalidInput(
                String::from_str("Color must be a valid hex color (e.g., #6366f1)"),
            ),
        );
    }
    let sort_order = match payload.sort_order {
        Some(v) => v,
        None => 0,
    };
    Ok(CreateGroup { name, color, sort_order })
}

/// Validates an update payload: the identifier must parse, and a name,
/// where one is given, must be non-empty once trimmed. Fields the
/// payload leaves out come back empty or zero; the caller fills them
/// from the existing record.
pub fn frontend_to_db_update(payload: UpdateGroupPayload) -> (r: Result<
    (i64, CreateGroup),
    GroupError,
>)
    ensures
        spec_parse_in_range(payload.id@, i64::MIN as int, i64::MAX as int) is None ==> (
        r matches Err(e) && e is InvalidInput),
        spec_parse_in_range(payload.id@, i64::MIN as int, i64::MAX as int) is Some && (
        payload.name matches Some(n) && spec_trim(n@).len() == 0) ==> (r matches Err(e)
            && e is InvalidInput),
        r matches Ok(p) ==> spec_parse_in_range(payload.id@, i64::MIN as int, i64::MAX as int)
            == Some(p.0 as int) && p.1.name@ == (match payload.name {
            Some(n) => spec_trim(n@),
            None => Seq::<char>::empty(),
        }) && p.1.color@ == (
        match payload.color {
            Some(c) => c@,
            None => Seq::<char>::empty(),
        }) && p.1.sort_order == (match payload.sort_order {
            Some(v) => v,
            None => 0,
        }),
        r is Err ==> spec_parse_in_range(payload.id@, i64::MIN as int, i64::MAX as int) is None
            || (payload.name matches Some(n) && spec_trim(n@).len() == 0),
{
    let id = match parse_i64(payload.id.as_str()) {
        Some(v) => v,
        None => {
            return Err(GroupError::InvalidInput(String::from_str("Invalid group ID")));
        },
    };
    let name = match &payload.name {
        Some(n) => {
            let trimmed = trim_str(n.as_str());
            if trimmed.as_str().unicode_len() == 0 {
                return Err(
                    GroupError::InvalidInput(String::from_str("Group name cannot be empty")),
                );
            }
            trimmed
        },
        None => String::new(),
    };
    let color = match payload.color {
        Some(c) => c,
        None => String::new(),
    };
    let sort_order = match payload.sort_order {
        Some(v) => v,
        None => 0,
    };
    Ok((id, CreateGroup { name, color, sort_order }))
}

} // verus!
