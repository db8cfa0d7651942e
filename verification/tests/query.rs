use jot::routes::notes::query::{
    filters, get_notes, get_notes_count, Bound, Filters, QueryPart, SortField, SortOrder, Sql,
};

fn written(parts: &[QueryPart]) -> String {
    let mut text = String::new();
    let mut binds = 0;
    for part in parts {
        match part {
            QueryPart::Push(sql) => text.push_str(&sql.text()),
            QueryPart::Bind(_) => {
                binds += 1;
                text.push_str(&format!("${}", binds));
            }
        }
    }
    text
}

#[test]
fn empty_search_returns_all_notes() {
    let found = filters(&Some(String::new()), &None, &None, &None);
    assert_eq!(found, Filters { search: false, from: false, to: false, tag: false });
    let parts = get_notes_count(found);
    assert_eq!(
        parts,
        vec![
            QueryPart::Push(Sql::SelectCount),
            QueryPart::Push(Sql::WhereUser),
            QueryPart::Bind(Bound::UserId),
        ]
    );
    assert_eq!(written(&parts), "SELECT COUNT(DISTINCT n.note_id) FROM notes n WHERE n.user_id = $1");
}

#[test]
fn combined_search_and_filter_works() {
    let found = filters(&Some("work".to_string()), &Some(1), &Some(2), &Some("urgent".to_string()));
    assert_eq!(found, Filters { search: true, from: true, to: true, tag: true });
    assert_eq!(
        written(&get_notes_count(found)),
        "SELECT COUNT(DISTINCT n.note_id) FROM notes n \
         LEFT JOIN note_tags nt ON n.note_id = nt.note_id \
         LEFT JOIN tags t ON nt.tag_id = t.tag_id \
         WHERE n.user_id = $1 \
         AND (to_tsvector('english', n.title || ' ' || n.content) @@ plainto_tsquery('english', $2) \
         AND n.created_at >= $3 AND n.created_at <= $4 AND t.name = $5"
    );
    assert_eq!(
        get_notes_count(found)
            .into_iter()
            .filter_map(|part| match part {
                QueryPart::Bind(bound) => Some(bound),
                QueryPart::Push(_) => None,
            })
            .collect::<Vec<_>>(),
        vec![Bound::UserId, Bound::Search, Bound::From, Bound::To, Bound::Tag]
    );
}

#[test]
fn date_range_filtering_works() {
    let found = filters(&None, &Some(10), &Some(20), &None);
    assert_eq!(
        written(&get_notes(found, SortField::CreatedAt, SortOrder::Desc)),
        "SELECT DISTINCT n.note_id, n.title, n.content, n.created_at, n.updated_at FROM notes n \
         WHERE n.user_id = $1 AND n.created_at >= $2 AND n.created_at <= $3 \
         ORDER BY n.created_at DESC LIMIT $4 OFFSET $5"
    );
}

#[test]
fn a_page_is_sorted_and_cut() {
    let none = Filters { search: false, from: false, to: false, tag: false };
    let parts = get_notes(none, SortField::Title, SortOrder::Asc);
    assert_eq!(
        parts,
        vec![
            QueryPart::Push(Sql::SelectNotes),
            QueryPart::Push(Sql::WhereUser),
            QueryPart::Bind(Bound::UserId),
            QueryPart::Push(Sql::OrderBy(SortField::Title, SortOrder::Asc)),
            QueryPart::Push(Sql::Limit),
            QueryPart::Bind(Bound::Limit),
            QueryPart::Push(Sql::Offset),
            QueryPart::Bind(Bound::Offset),
        ]
    );
    assert_eq!(Sql::OrderBy(SortField::UpdatedAt, SortOrder::Desc).text(), " ORDER BY n.updated_at DESC");
    assert_eq!(SortField::from_column("title"), SortField::Title);
    assert_eq!(SortField::from_column("updated_at"), SortField::UpdatedAt);
    assert_eq!(SortField::from_column("created_at"), SortField::CreatedAt);
    assert_eq!(SortField::from_column("anything"), SortField::CreatedAt);
    assert_eq!(SortOrder::from_direction("ASC"), SortOrder::Asc);
    assert_eq!(SortOrder::from_direction("DESC"), SortOrder::Desc);
    assert_eq!(SortOrder::from_direction("asc"), SortOrder::Desc);
}

#[test]
fn a_tag_filter_joins_the_tags() {
    let found = filters(&None, &None, &None, &Some("work".to_string()));
    assert_eq!(
        written(&get_notes_count(found)),
        "SELECT COUNT(DISTINCT n.note_id) FROM notes n \
         LEFT JOIN note_tags nt ON n.note_id = nt.note_id \
         LEFT JOIN tags t ON nt.tag_id = t.tag_id \
         WHERE n.user_id = $1 AND t.name = $2"
    );
}
