use crate::authentication::session::AuthenticatedUser;
use crate::domain::tag::{tag_name_error, NewTag};
use crate::domain::text::{lowercased, uuid_from_text, uuid_text, uuid_to_text, uuid_value};
use vstd::prelude::*;

verus! {

pub struct CreateTagRequest {
    pub name: String,
}

pub struct TagResponse {
    pub tag_id: String,
    pub name: String,
}

#[derive(Clone, Debug)]
pub enum TagError {
    Validation(String),
    Duplicate,
    InvalidId,
    NotFound,
    Unexpected,
}

impl TagError {
    pub fn status_code(&self) -> (code: u16)
        ensures
            code == match self {
                TagError::Validation(_) => 400u16,
                TagError::Duplicate => 409u16,
                TagError::InvalidId => 400u16,
                TagError::NotFound => 404u16,
                TagError::Unexpected => 500u16,
            },
    {
        match self {
            TagError::Validation(_) => 400,
            TagError::Duplicate => 409,
            TagError::InvalidId => 400,
            TagError::NotFound => 404,
            TagError::Unexpected => 500,
        }
    }
}

/// Validates a request to create a tag for the authenticated user.
pub fn create_tag(user: AuthenticatedUser, request: CreateTagRequest) -> (r: Result<
    NewTag,
    TagError,
>)
    ensures
        match r {
            Ok(tag) => {
                &&& tag_name_error(request.name@) is None
                &&& tag.user_id == user.user_id
                &&& tag.name@ == lowercased(request.name@)
            },
            Err(error) => {
                &&& error matches TagError::Validation(reason)
                &&& tag_name_error(request.name@) == Some(reason@)
            },
        },
{
    match NewTag::parse(user.user_id, request.name) {
        Ok(tag) => Ok(tag),
        Err(reason) => Err(TagError::Validation(reason)),
    }
}

/// A tag as it is listed.
pub fn tag_response(tag_id: u128, name: String) -> (response: TagResponse)
    ensures
        response.tag_id@ == uuid_text(tag_id),
        response.name@ == name@,
{
    TagResponse { tag_id: uuid_to_text(tag_id), name }
}

/// Reads the ids of a note and a tag from the request's path; the note's id
/// is read first.
pub fn note_and_tag_ids(note_id: &str, tag_id: &str) -> (r: Result<(u128, u128), TagError>)
    ensures
        match (uuid_value(note_id@), uuid_value(tag_id@)) {
            (Some(note), Some(tag)) => r matches Ok(ids) && ids == (note, tag),
            _ => r matches Err(TagError::InvalidId),
        },
{
    let note = match uuid_from_text(note_id) {
        Some(id) => id,
        None => {
            return Err(TagError::InvalidId);
        },
    };
    let tag = match uuid_from_text(tag_id) {
        Some(id) => id,
        None => {
            return Err(TagError::InvalidId);
        },
    };
    Ok((note, tag))
}

/// Judges whether the user owns a note or a tag by whether the store found
/// it under the user's id.
pub fn verify_ownership(found: bool) -> (r: Result<(), TagError>)
    ensures
        found ==> r is Ok,
        !found ==> r matches Err(TagError::NotFound),
{
    if found {
        Ok(())
    } else {
        Err(TagError::NotFound)
    }
}

/// The error for a tag that the store refused to insert: a duplicate where
/// the refusal was a violated uniqueness rule.
pub fn insert_tag_error(unique_violation: bool) -> (error: TagError)
    ensures
        unique_violation ==> error matches TagError::Duplicate,
        !unique_violation ==> error matches TagError::Unexpected,
{
    if unique_violation {
        TagError::Duplicate
    } else {
        TagError::Unexpected
    }
}

} // verus!
