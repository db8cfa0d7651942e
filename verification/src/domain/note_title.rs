use crate::domain::text::{all_white_space, grapheme_count, grapheme_len, is_blank};
use vstd::prelude::*;

verus! {

/// The title of a note: not blank, at most 200 grapheme clusters, and free
/// of the characters that are forbidden in a title.
#[derive(Debug, Clone)]
pub struct NoteTitle(String);

impl View for NoteTitle {
    type V = Seq<char>;

    closed spec fn view(&self) -> Seq<char> {
        self.0@
    }
}

pub open spec fn forbidden_in_title(c: char) -> bool {
    c == '/' || c == '(' || c == ')' || c == '"' || c == '<' || c == '>' || c == '\\' || c == '{'
        || c == '}'
}

pub open spec fn has_forbidden_character(s: Seq<char>) -> bool {
    exists|i: int| 0 <= i < s.len() && forbidden_in_title(#[trigger] s[i])
}

/// Why a text is refused as a title, if it is. The first rule broken decides.
pub open spec fn note_title_error(s: Seq<char>) -> Option<Seq<char>> {
    if all_white_space(s) {
        Some("Title cannot be empty"@)
    } else if grapheme_len(s) > 200 {
        Some("Title is too long (max 200 characters)"@)
    } else if has_forbidden_character(s) {
        Some("Title contains forbidden characters"@)
    } else {
        None
    }
}

fn is_forbidden(c: char) -> (b: bool)
    ensures
        b == forbidden_in_title(c),
{
    c == '/' || c == '(' || c == ')' || c == '"' || c == '<' || c == '>' || c == '\\' || c == '{'
        || c == '}'
}

fn contains_forbidden(s: &str) -> (b: bool)
    ensures
        b == has_forbidden_character(s@),
{
    let n: usize = s.unicode_len();
    let mut i: usize = 0;
    while i < n
        invariant
            0 <= i <= n,
            n == s@.len(),
            forall|j: int| 0 <= j < i ==> !forbidden_in_title(#[trigger] s@[j]),
        decreases n - i,
    {
        if is_forbidden(s.get_char(i)) {
            return true;
        }
        i += 1;
    }
    false
}

impl NoteTitle {
    pub fn parse(s: String) -> (r: Result<NoteTitle, String>)
        ensures
            match r {
                Ok(title) => note_title_error(s@) is None && title@ == s@,
                Err(reason) => note_title_error(s@) == Some(reason@),
            },
    {
        if is_blank(s.as_str()) {
            Err("Title cannot be empty".to_owned())
        } else if grapheme_count(s.as_str()) > 200 {
            Err("Title is too long (max 200 characters)".to_owned())
        } else if contains_forbidden(s.as_str()) {
            Err("Title contains forbidden characters".to_owned())
        } else {
            Ok(NoteTitle(s))
        }
    }

    pub fn as_ref(&self) -> (s: &str)
        ensures
            s@ == self@,
    {
        self.0.as_str()
    }

    pub fn to_string(&self) -> (s: String)
        ensures
            s@ == self@,
    {
        self.0.clone()
    }
}

} // verus!
