use crate::domain::text::{
    all_white_space, alphanumeric, grapheme_count, grapheme_len, is_alphanumeric, is_blank,
    lowercased, to_lowercase,
};
use vstd::prelude::*;

verus! {

/// The name of a tag, kept in lower case: letters, numbers, hyphens and
/// underscores, at most 50 grapheme clusters, not blank.
#[derive(Debug, Clone)]
pub struct TagName(String);

impl View for TagName {
    type V = Seq<char>;

    closed spec fn view(&self) -> Seq<char> {
        self.0@
    }
}

pub open spec fn allowed_in_tag(c: char) -> bool {
    alphanumeric(c) || c == '-' || c == '_'
}

pub open spec fn only_tag_characters(s: Seq<char>) -> bool {
    forall|i: int| 0 <= i < s.len() ==> allowed_in_tag(#[trigger] s[i])
}

/// Why a text is refused as a tag name, if it is. The first rule broken
/// decides.
pub open spec fn tag_name_error(s: Seq<char>) -> Option<Seq<char>> {
    if all_white_space(s) {
        Some("Tag name cannot be empty"@)
    } else if grapheme_len(s) > 50 {
        Some("Tag name is too long (max 50 characters"@)
    } else if !only_tag_characters(s) {
        Some("Tag name can only contain letters, numbers, hyphens, and underscores"@)
    } else {
        None
    }
}

fn has_only_tag_characters(s: &str) -> (b: bool)
    ensures
        b == only_tag_characters(s@),
{
    let n: usize = s.unicode_len();
    let mut i: usize = 0;
    while i < n
        invariant
            0 <= i <= n,
            n == s@.len(),
            forall|j: int| 0 <= j < i ==> allowed_in_tag(#[trigger] s@[j]),
        decreases n - i,
    {
        let c = s.get_char(i);
        if !(is_alphanumeric(c) || c == '-' || c == '_') {
            return false;
        }
        i += 1;
    }
    true
}

impl TagName {
    pub fn parse(s: String) -> (r: Result<TagName, String>)
        ensures
            match r {
                Ok(name) => tag_name_error(s@) is None && name@ == lowercased(s@),
                Err(reason) => tag_name_error(s@) == Some(reason@),
            },
    {
        if is_blank(s.as_str()) {
            Err("Tag name cannot be empty".to_owned())
        } else if grapheme_count(s.as_str()) > 50 {
            Err("Tag name is too long (max 50 characters".to_owned())
        } else if !has_only_tag_characters(s.as_str()) {
            Err("Tag name can only contain letters, numbers, hyphens, and underscores".to_owned())
        } else {
            Ok(TagName(to_lowercase(s.as_str())))
        }
    }

    pub fn as_ref(&self) -> (s: &str)
        ensures
            s@ == self@,
    {
        self.0.as_str()
    }

    pub fn to_string(&self) -> (s: String)
        ensures
            s@ == self@,
    {
        self.0.clone()
    }
}

#[derive(Debug, Clone)]
pub struct Tag {
    pub tag_id: u128,
    pub user_id: u128,
    pub name: TagName,
}

#[derive(Debug, Clone)]
pub struct NewTag {
    pub user_id: u128,
    pub name: TagName,
}

impl NewTag {
    pub fn parse(user_id: u128, name: String) -> (r: Result<NewTag, String>)
        ensures
            match r {
                Ok(tag) => tag_name_error(name@) is None && tag.user_id == user_id && tag.name@
                    == lowercased(name@),
                Err(reason) => tag_name_error(name@) == Some(reason@),
            },
    {
        match TagName::parse(name) {
            Ok(name) => Ok(NewTag { user_id, name }),
            Err(reason) => Err(reason),
        }
    }
}

} // verus!
