//! The persisted data models, as the external relational store hands
//! them to this core: plain values only.

use vstd::prelude::*;

verus! {

/// Raw import data from various sources.
pub struct RawImport {
    pub id: i64,
    pub raw_text: String,
    pub source_type: String,
    pub source_name: Option<String>,
    pub imported_at: String,
}

/// A persisted account record; the sensitive fields hold encrypted wire
/// text.
pub struct Account {
    pub id: i64,
    pub raw_import_id: Option<i64>,
    pub email: String,
    pub password: String,
    pub recovery_email: Option<String>,
    pub totp_secret: Option<String>,
    pub year: Option<i32>,
    pub notes: Option<String>,
    pub group_id: Option<i64>,
    pub field_order: String,
    pub created_at: String,
    pub updated_at: String,
    pub tags: Vec<Tag>,
}

/// Account creation data.
pub struct CreateAccount {
    pub raw_import_id: Option<i64>,
    pub email: String,
    pub password: String,
    pub recovery_email: Option<String>,
    pub totp_secret: Option<String>,
    pub year: Option<i32>,
    pub notes: Option<String>,
    pub group_id: Option<i64>,
    pub field_order: Option<String>,
}

/// Account update data.
pub struct UpdateAccount {
    pub id: i64,
    pub email: Option<String>,
    pub password: Option<String>,
    pub recovery_email: Option<String>,
    pub totp_secret: Option<String>,
    pub year: Option<i32>,
    pub notes: Option<String>,
    pub group_id: Option<i64>,
    pub field_order: Option<String>,
}

/// A group for organizing accounts.
pub struct Group {
    pub id: i64,
    pub name: String,
    pub color: String,
    pub sort_order: i32,
    pub created_at: String,
}

/// Group creation or update data.
pub struct CreateGroup {
    pub name: String,
    pub color: String,
    pub sort_order: i32,
}

/// A tag for categorizing accounts.
pub struct Tag {
    pub id: i64,
    pub name: String,
    pub color: String,
    pub created_at: String,
}

/// Tag creation or update data.
pub struct CreateTag {
    pub name: String,
    pub color: String,
}

/// An operation log entry.
pub struct OperationLog {
    pub id: i64,
    pub account_id: Option<i64>,
    pub action: String,
    pub details: Option<String>,
    pub created_at: String,
}

/// Pagination parameters.
pub struct Pagination {
    pub offset: i64,
    pub limit: i64,
}

impl Pagination {
    /// A pagination window at this offset and limit.
    pub fn new(offset: i64, limit: i64) -> (r: Self)
        ensures
            r.offset == offset,
            r.limit == limit,
    {
        Self { offset, limit }
    }
}

/// Account search filters.
pub struct AccountSearch {
    pub query: Option<String>,
    pub group_id: Option<i64>,
    pub tag_id: Option<i64>,
    pub year: Option<i32>,
    pub pagination: Pagination,
}

/// Database statistics.
pub struct DatabaseStats {
    pub accounts_count: i64,
    pub groups_count: i64,
    pub tags_count: i64,
    pub imports_count: i64,
    pub logs_count: i64,
    pub accounts_by_year: Vec<(i32, i64)>,
    pub accounts_per_group: Vec<(String, i64, i64)>,
    pub accounts_per_tag: Vec<(String, i64, i64)>,
}

} // verus!
