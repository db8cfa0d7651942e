use crate::domain::text::{uuid_from_text, uuid_value};
use vstd::prelude::*;

verus! {

#[derive(Clone, Copy, Debug, PartialEq, Eq, Structural)]
pub enum DeleteNoteError {
    NotFound,
    InvalidId,
    UnexpectedError,
}

impl DeleteNoteError {
    pub fn status_code(&self) -> (code: u16)
        ensures
            code == match self {
                DeleteNoteError::NotFound => 404u16,
                DeleteNoteError::InvalidId => 400u16,
                DeleteNoteError::UnexpectedError => 500u16,
            },
    {
        match self {
            DeleteNoteError::NotFound => 404,
            DeleteNoteError::InvalidId => 400,
            DeleteNoteError::UnexpectedError => 500,
        }
    }
}

/// Reads the id of the note to delete from the request's path.
pub fn delete_note(note_id: &str) -> (r: Result<u128, DeleteNoteError>)
    ensures
        r == match uuid_value(note_id@) {
            Some(id) => Ok::<u128, DeleteNoteError>(id),
            None => Err::<u128, DeleteNoteError>(DeleteNoteError::InvalidId),
        },
{
    match uuid_from_text(note_id) {
        Some(id) => Ok(id),
        None => Err(DeleteNoteError::InvalidId),
    }
}

/// Judges a deletion by the number of rows it removed: none means that the
/// user has no such note.
pub fn deletion_outcome(rows_affected: u64) -> (r: Result<(), DeleteNoteError>)
    ensures
        r == if rows_affected == 0 {
            Err::<(), DeleteNoteError>(DeleteNoteError::NotFound)
        } else {
            Ok::<(), DeleteNoteError>(())
        },
{
    if rows_affected == 0 {
        Err(DeleteNoteError::NotFound)
    } else {
        Ok(())
    }
}

} // verus!
