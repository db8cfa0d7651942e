use crate::domain::note::{text_of, update_note_error, UpdateNote};
use crate::domain::text::{uuid_from_text, uuid_value};
use vstd::prelude::*;

verus! {

pub struct UpdateNoteRequest {
    pub title: Option<String>,
    pub content: Option<String>,
}

pub struct UpdateNoteResponse {
    pub note_id: String,
    pub title: String,
    pub content: String,
    pub updated_at: String,
}

#[derive(Clone, Debug)]
pub enum UpdateNoteError {
    ValidationError(String),
    NotFound,
    InvalidId,
    UnexpectedError,
}

impl UpdateNoteError {
    pub fn status_code(&self) -> (code: u16)
        ensures
            code == match self {
                UpdateNoteError::ValidationError(_) => 400u16,
                UpdateNoteError::NotFound => 404u16,
                UpdateNoteError::InvalidId => 400u16,
                UpdateNoteError::UnexpectedError => 500u16,
            },
    {
        match self {
            UpdateNoteError::ValidationError(_) => 400,
            UpdateNoteError::NotFound => 404,
            UpdateNoteError::InvalidId => 400,
            UpdateNoteError::UnexpectedError => 500,
        }
    }
}

/// Validates a request to change a note: the id in the path is read first,
/// then the change is judged.
pub fn update_note(note_id: &str, request: UpdateNoteRequest) -> (r: Result<
    (u128, UpdateNote),
    UpdateNoteError,
>)
    ensures
        match uuid_value(note_id@) {
            None => r matches Err(UpdateNoteError::InvalidId),
            Some(id) => match update_note_error(text_of(request.title), text_of(request.content)) {
                Some(reason) => r matches Err(UpdateNoteError::ValidationError(text)) && text@
                    == reason,
                None => {
                    &&& r matches Ok(change)
                    &&& change.0 == id
                    &&& change.1.title_text() == text_of(request.title)
                    &&& change.1.content_text() == text_of(request.content)
                },
            },
        },
{
    let id = match uuid_from_text(note_id) {
        Some(id) => id,
        None => {
            return Err(UpdateNoteError::InvalidId);
        },
    };
    match UpdateNote::parse(request.title, request.content) {
        Ok(update) => Ok((id, update)),
        Err(reason) => Err(UpdateNoteError::ValidationError(reason)),
    }
}

/// The title and content to store: those of the change where it gives them,
/// those of the existing note where it does not. A note that the store did
/// not find is not found.
pub fn update_note_in_db(update: &UpdateNote, existing: Option<(String, String)>) -> (r: Result<
    (String, String),
    UpdateNoteError,
>)
    ensures
        match existing {
            None => r matches Err(UpdateNoteError::NotFound),
            Some(old_note) => {
                &&& r matches Ok(new_note)
                &&& new_note.0@ == match update.title_text() {
                    Some(title) => title,
                    None => old_note.0@,
                }
                &&& new_note.1@ == match update.content_text() {
                    Some(content) => content,
                    None => old_note.1@,
                }
            },
        },
{
    let (old_title, old_content) = match existing {
        Some(old_note) => old_note,
        None => {
            return Err(UpdateNoteError::NotFound);
        },
    };
    let title = match &update.title {
        Some(title) => title.to_string(),
        None => old_title,
    };
    let content = match &update.content {
        Some(content) => content.to_string(),
        None => old_content,
    };
    Ok((title, content))
}

} // verus!
