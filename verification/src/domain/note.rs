use crate::domain::note_content::{note_content_error, NoteContent};
use crate::domain::note_title::{note_title_error, NoteTitle};
use vstd::prelude::*;

verus! {

#[derive(Debug, Clone)]
pub struct NewNote {
    pub user_id: u128,
    pub title: NoteTitle,
    pub content: NoteContent,
}

/// Why a title and a content are refused as a new note, if they are: the
/// title is judged first.
pub open spec fn new_note_error(title: Seq<char>, content: Seq<char>) -> Option<Seq<char>> {
    if note_title_error(title) is Some {
        note_title_error(title)
    } else {
        note_content_error(content)
    }
}

impl NewNote {
    pub fn parse(user_id: u128, title: String, content: String) -> (r: Result<NewNote, String>)
        ensures
            match r {
                Ok(note) => {
                    &&& new_note_error(title@, content@) is None
                    &&& note.user_id == user_id
                    &&& note.title@ == title@
                    &&& note.content@ == content@
                },
                Err(reason) => new_note_error(title@, content@) == Some(reason@),
            },
    {
        let title = match NoteTitle::parse(title) {
            Ok(title) => title,
            Err(reason) => {
                return Err(reason);
            },
        };
        let content = match NoteContent::parse(content) {
            Ok(content) => content,
            Err(reason) => {
                return Err(reason);
            },
        };
        Ok(NewNote { user_id, title, content })
    }
}

/// A change to a note: a new title, a new content, or both.
#[derive(Debug, Clone)]
pub struct UpdateNote {
    pub title: Option<NoteTitle>,
    pub content: Option<NoteContent>,
}

/// Why a requested change is refused, if it is: a title given is judged
/// first, then a content given, and a change of nothing is refused.
pub open spec fn update_note_error(
    title: Option<Seq<char>>,
    content: Option<Seq<char>>,
) -> Option<Seq<char>> {
    if title is Some && note_title_error(title->0) is Some {
        note_title_error(title->0)
    } else if content is Some && note_content_error(content->0) is Some {
        note_content_error(content->0)
    } else if title is None && content is None {
        Some("At least one field (title or content) must be provided"@)
    } else {
        None
    }
}

/// The text of a string that may be absent.
pub open spec fn text_of(s: Option<String>) -> Option<Seq<char>> {
    match s {
        Some(s) => Some(s@),
        None => None,
    }
}

impl UpdateNote {
    pub open spec fn title_text(&self) -> Option<Seq<char>> {
        match self.title {
            Some(t) => Some(t@),
            None => None,
        }
    }

    pub open spec fn content_text(&self) -> Option<Seq<char>> {
        match self.content {
            Some(c) => Some(c@),
            None => None,
        }
    }

    pub fn parse(title: Option<String>, content: Option<String>) -> (r: Result<UpdateNote, String>)
        ensures
            match r {
                Ok(update) => {
                    &&& update_note_error(text_of(title), text_of(content)) is None
                    &&& update.title_text() == text_of(title)
                    &&& update.content_text() == text_of(content)
                },
                Err(reason) => update_note_error(text_of(title), text_of(content)) == Some(
                    reason@,
                ),
            },
    {
        let title = match title {
            Some(t) => match NoteTitle::parse(t) {
                Ok(t) => Some(t),
                Err(reason) => {
                    return Err(reason);
                },
            },
            None => None,
        };
        let content = match content {
            Some(c) => match NoteContent::parse(c) {
                Ok(c) => Some(c),
                Err(reason) => {
                    return Err(reason);
                },
            },
            None => None,
        };
        if title.is_none() && content.is_none() {
            return Err("At least one field (title or content) must be provided".to_owned());
        }
        Ok(UpdateNote { title, content })
    }
}

} // verus!
