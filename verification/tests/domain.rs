use jot::domain::{NewNote, NewTag, NewUser, NoteContent, NoteTitle, TagName, UpdateNote, UserEmail};

#[test]
fn whitespace_only_content_is_rejected() {
    let content = " ".to_string();
    assert!(NoteContent::parse(content).is_err());
}

#[test]
fn note_content_empty_string_is_rejected() {
    let content = "".to_string();
    assert!(NoteContent::parse(content).is_err());
}

#[test]
fn valid_content_is_parsed_successfully() {
    let content = "This is my note content with multiple lines.\nLine 2\nLine 3".to_string();
    assert!(NoteContent::parse(content).is_ok());
}

#[test]
fn content_keeps_its_text_and_reports_the_reason() {
    let parsed = NoteContent::parse("  body \n".to_string()).unwrap();
    assert_eq!(parsed.as_ref(), "  body \n");
    assert_eq!(parsed.to_string(), "  body \n");
    assert_eq!(
        NoteContent::parse("\t\n \u{a0}\u{3000}".to_string()).unwrap_err(),
        "Content cannot be empty"
    );
}

#[test]
fn valid_tag_name_is_accepted() {
    assert!(TagName::parse("work".to_string()).is_ok());
    assert!(TagName::parse("my-tag".to_string()).is_ok());
    assert!(TagName::parse("tag_123".to_string()).is_ok());
}

#[test]
fn empty_tag_name_is_rejected() {
    assert!(TagName::parse("".to_string()).is_err());
    assert!(TagName::parse("   ".to_string()).is_err());
}

#[test]
fn tag_name_too_long_is_rejected() {
    let long_name = "a".repeat(51);
    assert!(TagName::parse(long_name).is_err());
}

#[test]
fn tag_name_with_special_characters_is_rejected() {
    assert!(TagName::parse("tag name".to_string()).is_err());
    assert!(TagName::parse("tag@name".to_string()).is_err());
    assert!(TagName::parse("tag!".to_string()).is_err());
    assert!(TagName::parse("tag#".to_string()).is_err());
}

#[test]
fn tag_name_is_kept_in_lower_case() {
    let name = TagName::parse("Work-ÄB_1".to_string()).unwrap();
    assert_eq!(name.as_ref(), "work-äb_1");
    assert_eq!(name.to_string(), "work-äb_1");
}

#[test]
fn tag_name_errors_name_the_first_rule_broken() {
    assert_eq!(TagName::parse(" ".to_string()).unwrap_err(), "Tag name cannot be empty");
    assert_eq!(
        TagName::parse("a b".repeat(20)).unwrap_err(),
        "Tag name is too long (max 50 characters"
    );
    assert_eq!(
        TagName::parse("a b".to_string()).unwrap_err(),
        "Tag name can only contain letters, numbers, hyphens, and underscores"
    );
    assert!(TagName::parse("a".repeat(50)).is_ok());
}

#[test]
fn new_tag_keeps_the_user() {
    let tag = NewTag::parse(7, "Urgent".to_string()).unwrap();
    assert_eq!(tag.user_id, 7);
    assert_eq!(tag.name.as_ref(), "urgent");
    assert!(NewTag::parse(7, "no way".to_string()).is_err());
}

#[test]
fn title_rules_are_judged_in_order() {
    assert_eq!(NoteTitle::parse("  ".to_string()).unwrap_err(), "Title cannot be empty");
    assert_eq!(
        NoteTitle::parse("/".repeat(201)).unwrap_err(),
        "Title is too long (max 200 characters)"
    );
    assert_eq!(
        NoteTitle::parse("a{b".to_string()).unwrap_err(),
        "Title contains forbidden characters"
    );
    for c in ['/', '(', ')', '"', '<', '>', '\\', '{', '}'] {
        assert!(NoteTitle::parse(format!("title{}", c)).is_err());
    }
    let title = NoteTitle::parse("My Note".to_string()).unwrap();
    assert_eq!(title.as_ref(), "My Note");
    assert_eq!(title.to_string(), "My Note");
}

#[test]
fn title_length_counts_grapheme_clusters() {
    assert!(NoteTitle::parse("a".repeat(200)).is_ok());
    assert!(NoteTitle::parse("a".repeat(201)).is_err());
    // 200 clusters of two characters each
    assert!(NoteTitle::parse("e\u{301}".repeat(200)).is_ok());
    assert!(NoteTitle::parse("e\u{301}".repeat(201)).is_err());
}

#[test]
fn new_note_judges_the_title_first() {
    let note = NewNote::parse(9, "Title".to_string(), "Body".to_string()).unwrap();
    assert_eq!(note.user_id, 9);
    assert_eq!(note.title.as_ref(), "Title");
    assert_eq!(note.content.as_ref(), "Body");
    assert_eq!(
        NewNote::parse(9, "".to_string(), "".to_string()).unwrap_err(),
        "Title cannot be empty"
    );
    assert_eq!(
        NewNote::parse(9, "Title".to_string(), " ".to_string()).unwrap_err(),
        "Content cannot be empty"
    );
}

#[test]
fn update_needs_at_least_one_field() {
    assert_eq!(
        UpdateNote::parse(None, None).unwrap_err(),
        "At least one field (title or content) must be provided"
    );
    let title_only = UpdateNote::parse(Some("New".to_string()), None).unwrap();
    assert_eq!(title_only.title.unwrap().as_ref(), "New");
    assert!(title_only.content.is_none());
    let content_only = UpdateNote::parse(None, Some("Body".to_string())).unwrap();
    assert!(content_only.title.is_none());
    assert_eq!(content_only.content.unwrap().as_ref(), "Body");
    assert_eq!(
        UpdateNote::parse(Some("<".to_string()), Some("".to_string())).unwrap_err(),
        "Title contains forbidden characters"
    );
    assert_eq!(
        UpdateNote::parse(None, Some("".to_string())).unwrap_err(),
        "Content cannot be empty"
    );
}

#[test]
fn user_email_empty_string_is_rejected() {
    let email = "".to_string();
    assert!(UserEmail::parse(email).is_err());
}

#[test]
fn email_missing_at_symbol_is_rejected() {
    let email = "jotdomain.com".to_string();
    assert!(UserEmail::parse(email).is_err());
}

#[test]
fn email_missing_subject_is_rejected() {
    let email = "@domain.com".to_string();
    assert!(UserEmail::parse(email).is_err());
}

#[test]
fn valid_email_is_parsed_successfully() {
    let email = "jot@domain.com".to_string();
    assert!(UserEmail::parse(email).is_ok());
}

#[test]
fn email_errors_quote_the_text() {
    assert_eq!(UserEmail::parse("   ".to_string()).unwrap_err(), "Email cannot be empty");
    assert_eq!(
        UserEmail::parse("jotdomain.com".to_string()).unwrap_err(),
        "'jotdomain.com' is not a valid email address"
    );
    let email = UserEmail::parse("jot@domain.com".to_string()).unwrap();
    assert_eq!(email.as_ref(), "jot@domain.com");
    assert_eq!(email.to_string(), "jot@domain.com");
}

#[test]
fn new_user_judges_the_email_first() {
    let user =
        NewUser::parse("jot@domain.com".to_string(), "validPass123".to_string()).ok().unwrap();
    assert_eq!(user.email.as_ref(), "jot@domain.com");
    assert_eq!(user.password.expose_secret(), "validPass123");
    assert_eq!(
        NewUser::parse("nope".to_string(), "x".to_string()).err().unwrap(),
        "'nope' is not a valid email address"
    );
    assert_eq!(
        NewUser::parse("jot@domain.com".to_string(), "x".to_string()).err().unwrap(),
        "Password must be atleast 8 characters long"
    );
}
