use crate::domain::text::{all_white_space, is_blank};
use vstd::prelude::*;

verus! {

/// The body of a note: any text that is not blank.
#[derive(Debug, Clone)]
pub struct NoteContent(String);

impl View for NoteContent {
    type V = Seq<char>;

    closed spec fn view(&self) -> Seq<char> {
        self.0@
    }
}

/// Why a text is refused as the content of a note, if it is.
pub open spec fn note_content_error(s: Seq<char>) -> Option<Seq<char>> {
    if all_white_space(s) {
        Some("Content cannot be empty"@)
    } else {
        None
    }
}

impl NoteContent {
    pub fn parse(s: String) -> (r: Result<NoteContent, String>)
        ensures
            match r {
                Ok(content) => note_content_error(s@) is None && content@ == s@,
                Err(reason) => note_content_error(s@) == Some(reason@),
            },
    {
        if is_blank(s.as_str()) {
            Err("Content cannot be empty".to_owned())
        } else {
            Ok(NoteContent(s))
        }
    }

    pub fn as_ref(&self) -> (s: &str)
        ensures
            s@ == self@,
    {
        self.0.as_str()
    }

    pub fn to_string(&self) -> (s: String)
        ensures
            s@ == self@,
    {
        self.0.clone()
    }
}

} // verus!
