use crate::authentication::session::AuthenticatedUser;
use crate::domain::note::{new_note_error, NewNote};
use crate::domain::text::{uuid_text, uuid_to_text};
use vstd::prelude::*;

verus! {

pub struct CreateNoteRequest {
    pub title: String,
    pub content: String,
}

pub struct CreateNoteResponse {
    pub note_id: String,
    pub title: String,
    pub content: String,
    pub created_at: String,
}

#[derive(Clone, Debug)]
pub enum CreateNoteError {
    ValidationError(String),
    UnexpectedError,
}

impl CreateNoteError {
    pub fn status_code(&self) -> (code: u16)
        ensures
            code == match self {
                CreateNoteError::ValidationError(_) => 400u16,
                CreateNoteError::UnexpectedError => 500u16,
            },
    {
        match self {
            CreateNoteError::ValidationError(_) => 400,
            CreateNoteError::UnexpectedError => 500,
        }
    }
}

/// Validates a request to create a note for the authenticated user.
pub fn create_note(user: AuthenticatedUser, request: CreateNoteRequest) -> (r: Result<
    NewNote,
    CreateNoteError,
>)
    ensures
        match r {
            Ok(note) => {
                &&& new_note_error(request.title@, request.content@) is None
                &&& note.user_id == user.user_id
                &&& note.title@ == request.title@
                &&& note.content@ == request.content@
            },
            Err(error) => {
                &&& error matches CreateNoteError::ValidationError(reason)
                &&& new_note_error(request.title@, request.content@) == Some(reason@)
            },
        },
{
    match NewNote::parse(user.user_id, request.title, request.content) {
        Ok(note) => Ok(note),
        Err(reason) => Err(CreateNoteError::ValidationError(reason)),
    }
}

/// The answer for a note that was stored under `note_id` at `created_at`.
pub fn create_note_response(note_id: u128, note: &NewNote, created_at: String) -> (response:
    CreateNoteResponse)
    ensures
        response.note_id@ == uuid_text(note_id),
        response.title@ == note.title@,
        response.content@ == note.content@,
        response.created_at@ == created_at@,
{
    CreateNoteResponse {
        note_id: uuid_to_text(note_id),
        title: note.title.to_string(),
        content: note.content.to_string(),
        created_at,
    }
}

} // verus!
