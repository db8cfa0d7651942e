//! The queries of a listing, laid out as the pieces of SQL text and the
//! values bound between them, in the order in which the store's query
//! builder takes them.

use vstd::prelude::*;

verus! {

/// A column that a listing may be sorted by.
#[derive(Clone, Copy, Debug, PartialEq, Eq, Structural)]
pub enum SortField {
    Title,
    CreatedAt,
    UpdatedAt,
}

/// A direction to sort in.
#[derive(Clone, Copy, Debug, PartialEq, Eq, Structural)]
pub enum SortOrder {
    Asc,
    Desc,
}

/// A piece of SQL text.
#[derive(Clone, Copy, Debug, PartialEq, Eq, Structural)]
pub enum Sql {
    SelectCount,
    SelectNotes,
    JoinNoteTags,
    JoinTags,
    WhereUser,
    AndOpen,
    SearchMatches,
    Close,
    AndCreatedFrom,
    AndCreatedTo,
    AndTagName,
    OrderBy(SortField, SortOrder),
    Limit,
    Offset,
}

/// A value of the request that is bound into the query.
#[derive(Clone, Copy, Debug, PartialEq, Eq, Structural)]
pub enum Bound {
    UserId,
    Search,
    From,
    To,
    Tag,
    Limit,
    Offset,
}

/// One step of building a query: append text, or bind a value.
#[derive(Clone, Copy, Debug, PartialEq, Eq, Structural)]
pub enum QueryPart {
    Push(Sql),
    Bind(Bound),
}

/// Which of a listing's filters are in force.
#[derive(Clone, Copy, Debug, PartialEq, Eq, Structural)]
pub struct Filters {
    pub search: bool,
    pub from: bool,
    pub to: bool,
    pub tag: bool,
}

pub open spec fn sort_field_text(field: SortField) -> Seq<char> {
    match field {
        SortField::Title => "title"@,
        SortField::CreatedAt => "created_at"@,
        SortField::UpdatedAt => "updated_at"@,
    }
}

pub open spec fn sort_order_text(order: SortOrder) -> Seq<char> {
    match order {
        SortOrder::Asc => "ASC"@,
        SortOrder::Desc => "DESC"@,
    }
}

/// The SQL text of a piece.
pub open spec fn sql_text(sql: Sql) -> Seq<char> {
    match sql {
        Sql::SelectCount => "SELECT COUNT(DISTINCT n.note_id) FROM notes n"@,
        Sql::SelectNotes => "SELECT DISTINCT n.note_id, n.title, n.content, n.created_at, n.updated_at FROM notes n"@,
        Sql::JoinNoteTags => " LEFT JOIN note_tags nt ON n.note_id = nt.note_id"@,
        Sql::JoinTags => " LEFT JOIN tags t ON nt.tag_id = t.tag_id"@,
        Sql::WhereUser => " WHERE n.user_id = "@,
        Sql::AndOpen => " AND ("@,
        Sql::SearchMatches => "to_tsvector('english', n.title || ' ' || n.content) @@ plainto_tsquery('english', "@,
        Sql::Close => ")"@,
        Sql::AndCreatedFrom => " AND n.created_at >= "@,
        Sql::AndCreatedTo => " AND n.created_at <= "@,
        Sql::AndTagName => " AND t.name = "@,
        Sql::OrderBy(field, order) => " ORDER BY n."@ + sort_field_text(field) + " "@
            + sort_order_text(order),
        Sql::Limit => " LIMIT "@,
        Sql::Offset => " OFFSET "@,
    }
}

impl SortField {
    /// The column named by a text that `validate_sort_field` let through.
    pub fn from_column(column: &str) -> (field: SortField)
        ensures
            field == if column@ == "title"@ {
                SortField::Title
            } else if column@ == "updated_at"@ {
                SortField::UpdatedAt
            } else {
                SortField::CreatedAt
            },
    {
        if crate::domain::text::same_text(column, "title") {
            SortField::Title
        } else if crate::domain::text::same_text(column, "updated_at") {
            SortField::UpdatedAt
        } else {
            SortField::CreatedAt
        }
    }
}

impl SortOrder {
    /// The direction named by a text that `sort_order` gave.
    pub fn from_direction(direction: &str) -> (order: SortOrder)
        ensures
            order == if direction@ == "ASC"@ {
                SortOrder::Asc
            } else {
                SortOrder::Desc
            },
    {
        if crate::domain::text::same_text(direction, "ASC") {
            SortOrder::Asc
        } else {
            SortOrder::Desc
        }
    }
}

impl Sql {
    pub fn text(&self) -> (text: String)
        ensures
            text@ == sql_text(*self),
    {
        match self {
            Sql::SelectCount => "SELECT COUNT(DISTINCT n.note_id) FROM notes n".to_owned(),
            Sql::SelectNotes => "SELECT DISTINCT n.note_id, n.title, n.content, n.created_at, n.updated_at FROM notes n".to_owned(),
            Sql::JoinNoteTags => " LEFT JOIN note_tags nt ON n.note_id = nt.note_id".to_owned(),
            Sql::JoinTags => " LEFT JOIN tags t ON nt.tag_id = t.tag_id".to_owned(),
            Sql::WhereUser => " WHERE n.user_id = ".to_owned(),
            Sql::AndOpen => " AND (".to_owned(),
            Sql::SearchMatches => "to_tsvector('english', n.title || ' ' || n.content) @@ plainto_tsquery('english', ".to_owned(),
            Sql::Close => ")".to_owned(),
            Sql::AndCreatedFrom => " AND n.created_at >= ".to_owned(),
            Sql::AndCreatedTo => " AND n.created_at <= ".to_owned(),
            Sql::AndTagName => " AND t.name = ".to_owned(),
            Sql::OrderBy(field, order) => {
                let mut text = " ORDER BY n.".to_owned();
                match field {
                    SortField::Title => text.append("title"),
                    SortField::CreatedAt => text.append("created_at"),
                    SortField::UpdatedAt => text.append("updated_at"),
                }
                text.append(" ");
                match order {
                    SortOrder::Asc => text.append("ASC"),
                    SortOrder::Desc => text.append("DESC"),
                }
                text
            },
            Sql::Limit => " LIMIT ".to_owned(),
            Sql::Offset => " OFFSET ".to_owned(),
        }
    }
}

/// Which filters a request puts in force: a search only where its term is
/// not empty.
pub open spec fn filters_of(
    search: Option<Seq<char>>,
    from: Option<i64>,
    to: Option<i64>,
    tag: Option<Seq<char>>,
) -> Filters {
    Filters {
        search: search is Some && search->0.len() > 0,
        from: from is Some,
        to: to is Some,
        tag: tag is Some,
    }
}

/// The joins and conditions that select a user's notes under the filters.
pub open spec fn filter_parts(filters: Filters) -> Seq<QueryPart> {
    (if filters.tag {
        seq![QueryPart::Push(Sql::JoinNoteTags), QueryPart::Push(Sql::JoinTags)]
    } else {
        Seq::<QueryPart>::empty()
    }) + seq![QueryPart::Push(Sql::WhereUser), QueryPart::Bind(Bound::UserId)] + (if filters.search {
        seq![
            QueryPart::Push(Sql::AndOpen),
            QueryPart::Push(Sql::SearchMatches),
            QueryPart::Bind(Bound::Search),
            QueryPart::Push(Sql::Close),
        ]
    } else {
        Seq::<QueryPart>::empty()
    }) + (if filters.from {
        seq![QueryPart::Push(Sql::AndCreatedFrom), QueryPart::Bind(Bound::From)]
    } else {
        Seq::<QueryPart>::empty()
    }) + (if filters.to {
        seq![QueryPart::Push(Sql::AndCreatedTo), QueryPart::Bind(Bound::To)]
    } else {
        Seq::<QueryPart>::empty()
    }) + (if filters.tag {
        seq![QueryPart::Push(Sql::AndTagName), QueryPart::Bind(Bound::Tag)]
    } else {
        Seq::<QueryPart>::empty()
    })
}

/// The query that counts the notes under the filters.
pub open spec fn count_query(filters: Filters) -> Seq<QueryPart> {
    seq![QueryPart::Push(Sql::SelectCount)] + filter_parts(filters)
}

/// The query that fetches one page of the notes under the filters.
pub open spec fn notes_query(filters: Filters, field: SortField, order: SortOrder) -> Seq<
    QueryPart,
> {
    seq![QueryPart::Push(Sql::SelectNotes)] + filter_parts(filters) + seq![
        QueryPart::Push(Sql::OrderBy(field, order)),
        QueryPart::Push(Sql::Limit),
        QueryPart::Bind(Bound::Limit),
        QueryPart::Push(Sql::Offset),
        QueryPart::Bind(Bound::Offset),
    ]
}

pub fn filters(
    search: &Option<String>,
    from: &Option<i64>,
    to: &Option<i64>,
    tag: &Option<String>,
) -> (filters: Filters)
    ensures
        filters == (Filters {
            search: search matches Some(term) && term@.len() > 0,
            from: from is Some,
            to: to is Some,
            tag: tag is Some,
        }),
{
    let search = match search {
        Some(term) => term.as_str().unicode_len() > 0,
        None => false,
    };
    Filters { search, from: from.is_some(), to: to.is_some(), tag: tag.is_some() }
}

fn push_filter_parts(parts: &mut Vec<QueryPart>, filters: Filters)
    ensures
        final(parts)@ == old(parts)@ + filter_parts(filters),
{
    if filters.tag {
        parts.push(QueryPart::Push(Sql::JoinNoteTags));
        parts.push(QueryPart::Push(Sql::JoinTags));
    }
    parts.push(QueryPart::Push(Sql::WhereUser));
    parts.push(QueryPart::Bind(Bound::UserId));
    if filters.search {
        parts.push(QueryPart::Push(Sql::AndOpen));
        parts.push(QueryPart::Push(Sql::SearchMatches));
        parts.push(QueryPart::Bind(Bound::Search));
        parts.push(QueryPart::Push(Sql::Close));
    }
    if filters.from {
        parts.push(QueryPart::Push(Sql::AndCreatedFrom));
        parts.push(QueryPart::Bind(Bound::From));
    }
    if filters.to {
        parts.push(QueryPart::Push(Sql::AndCreatedTo));
        parts.push(QueryPart::Bind(Bound::To));
    }
    if filters.tag {
        parts.push(QueryPart::Push(Sql::AndTagName));
        parts.push(QueryPart::Bind(Bound::Tag));
    }
    proof {
        assert(parts@ =~= old(parts)@ + filter_parts(filters));
    }
}

/// Lays out the query that counts a user's notes under the filters.
pub fn get_notes_count(filters: Filters) -> (parts: Vec<QueryPart>)
    ensures
        parts@ == count_query(filters),
{
    let mut parts: Vec<QueryPart> = Vec::new();
    parts.push(QueryPart::Push(Sql::SelectCount));
    push_filter_parts(&mut parts, filters);
    parts
}

/// Lays out the query that fetches one page of a user's notes under the
/// filters, sorted as asked.
pub fn get_notes(filters: Filters, field: SortField, order: SortOrder) -> (parts: Vec<QueryPart>)
    ensures
        parts@ == notes_query(filters, field, order),
{
    let mut parts: Vec<QueryPart> = Vec::new();
    parts.push(QueryPart::Push(Sql::SelectNotes));
    push_filter_parts(&mut parts, filters);
    parts.push(QueryPart::Push(Sql::OrderBy(field, order)));
    parts.push(QueryPart::Push(Sql::Limit));
    parts.push(QueryPart::Bind(Bound::Limit));
    parts.push(QueryPart::Push(Sql::Offset));
    parts.push(QueryPart::Bind(Bound::Offset));
    proof {
        assert(parts@ =~= notes_query(filters, field, order));
    }
    parts
}

} // verus!
