//! Tag conversions between the persisted model and the value handed to
//! the user interface.

use vstd::prelude::*;

use crate::db_models::{CreateTag, Tag};
use crate::textnum::{i64_to_string, spec_i64_text};
use crate::textutil::{is_valid_color, spec_trim, spec_valid_color, trim_str};
use vstd::string::{StrSliceExecFns, StringExecFns};

verus! {

/// A tag as the user interface sees it.
pub struct TagDto {
    pub id: String,
    pub name: String,
    pub color: String,
    pub created_at: String,
}

/// Tag creation payload from the user interface.
pub struct CreateTagPayload {
    pub name: String,
    pub color: Option<String>,
}

/// Tag update payload from the user interface.
pub struct UpdateTagPayload {
    pub id: String,
    pub name: Option<String>,
    pub color: Option<String>,
}

/// Payload for setting all of an account's tags at once.
pub struct SetAccountTagsPayload {
    pub account_id: String,
    pub tag_ids: Vec<String>,
}

/// Failure of a tag operation.
#[derive(Debug, Clone)]
pub enum TagError {
    /// The payload is not acceptable.
    InvalidInput(String),
    /// No tag with the requested identifier exists.
    NotFound(String),
}

/// The color a creation payload denotes: the given one, or the default.
pub open spec fn spec_tag_color(color: Option<String>) -> Seq<char> {
    match color {
        Some(c) => c@,
        None => "#10b981"@,
    }
}

/// Converts a persisted tag to its user-interface form; the numeric
/// identifier becomes decimal text.
pub fn db_to_frontend_tag(db_tag: Tag) -> (r: TagDto)
    ensures
        r.id@ == spec_i64_text(db_tag.id as int),
        r.name@ == db_tag.name@,
        r.color@ == db_tag.color@,
        r.created_at@ == db_tag.created_at@,
{
    TagDto {
        id: i64_to_string(db_tag.id),
        name: db_tag.name,
        color: db_tag.color,
        created_at: db_tag.created_at,
    }
}

/// Validates a creation payload: the trimmed name must be non-empty and
/// the color (defaulted when absent) must have the accepted shape.
pub fn frontend_to_db_create(payload: CreateTagPayload) -> (r: Result<CreateTag, TagError>)
    ensures
        spec_trim(payload.name@).len() == 0 ==> (r matches Err(e) && e is InvalidInput),
        spec_trim(payload.name@).len() > 0 && !spec_valid_color(spec_tag_color(payload.color))
            ==> (r matches Err(e) && e is InvalidInput),
        spec_trim(payload.name@).len() > 0 && spec_valid_color(spec_tag_color(payload.color)) ==> (
        r matches Ok(t) && t.name@ == spec_trim(payload.name@) && t.color@ == spec_tag_color(
            payload.color,
        )),
{
    let name = trim_str(payload.name.as_str());
    if name.as_str().unicode_len() == 0 {
        return Err(TagError::InvalidInput(String::from_str("Tag name is required")));
    }
    let color = match payload.color {
        Some(c) => c,
        None => String::from_str("#10b981"),
    };
    if !is_valid_color(color.as_str()) {
        return Err(
            TagError::InvalidInput(
                String::from_str("Color must be a valid hex color (e.g., #10b981)"),
            ),
        );
    }
    Ok(CreateTag { name, color })
}

} // verus!
