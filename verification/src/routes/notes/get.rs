use crate::domain::text::{uuid_from_text, uuid_text, uuid_to_text, uuid_value};
use vstd::prelude::*;

verus! {

pub struct NoteResponse {
    pub note_id: String,
    pub title: String,
    pub content: String,
    pub created_at: String,
    pub updated_at: String,
}

/// A note as the store returns it, with its times already written out.
pub struct NoteRow {
    pub note_id: u128,
    pub title: String,
    pub content: String,
    pub created_at: String,
    pub updated_at: String,
}

#[derive(Clone, Copy, Debug, PartialEq, Eq, Structural)]
pub enum GetNoteError {
    NotFound,
    InvalidId,
    UnexpectedError,
}

impl GetNoteError {
    pub fn status_code(&self) -> (code: u16)
        ensures
            code == match self {
                GetNoteError::NotFound => 404u16,
                GetNoteError::InvalidId => 400u16,
                GetNoteError::UnexpectedError => 500u16,
            },
    {
        match self {
            GetNoteError::NotFound => 404,
            GetNoteError::InvalidId => 400,
            GetNoteError::UnexpectedError => 500,
        }
    }
}

/// Reads the id of the note to fetch from the request's path.
pub fn get_note(note_id: &str) -> (r: Result<u128, GetNoteError>)
    ensures
        r == match uuid_value(note_id@) {
            Some(id) => Ok::<u128, GetNoteError>(id),
            None => Err::<u128, GetNoteError>(GetNoteError::InvalidId),
        },
{
    match uuid_from_text(note_id) {
        Some(id) => Ok(id),
        None => Err(GetNoteError::InvalidId),
    }
}

/// The answer for what the store returned: the note, or not found.
pub fn fetch_note(row: Option<NoteRow>) -> (r: Result<NoteResponse, GetNoteError>)
    ensures
        match row {
            Some(found) => {
                &&& r matches Ok(note)
                &&& note.note_id@ == uuid_text(found.note_id)
                &&& note.title@ == found.title@
                &&& note.content@ == found.content@
                &&& note.created_at@ == found.created_at@
                &&& note.updated_at@ == found.updated_at@
            },
            None => r matches Err(e) && e == GetNoteError::NotFound,
        },
{
    match row {
        Some(found) => Ok(
            NoteResponse {
                note_id: uuid_to_text(found.note_id),
                title: found.title,
                content: found.content,
                created_at: found.created_at,
                updated_at: found.updated_at,
            },
        ),
        None => Err(GetNoteError::NotFound),
    }
}

} // verus!
