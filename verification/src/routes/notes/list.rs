use crate::domain::text::{lowercased, same_text, to_lowercase, uuid_text, uuid_to_text};
use vstd::prelude::*;

verus! {

/// The query of a listing. Times are in microseconds since the Unix epoch.
pub struct NoteQueryParams {
    pub page: i64,
    pub page_size: i64,
    pub search: Option<String>,
    pub from: Option<i64>,
    pub to: Option<i64>,
    pub sort: String,
    pub order: String,
    pub tag: Option<String>,
}

pub fn default_page() -> (page: i64)
    ensures
        page == 1,
{
    1
}

pub fn default_page_size() -> (size: i64)
    ensures
        size == 20,
{
    20
}

pub fn default_sort() -> (sort: String)
    ensures
        sort@ == "created_at"@,
{
    "created_at".to_owned()
}

pub fn default_order() -> (order: String)
    ensures
        order@ == "desc"@,
{
    "desc".to_owned()
}

pub struct NoteListItem {
    pub note_id: String,
    pub title: String,
    pub content: String,
    pub created_at: String,
    pub updated_at: String,
    pub tags: Option<Vec<String>>,
}

pub struct NoteListeResponse {
    pub notes: Vec<NoteListItem>,
    pub page: i64,
    pub page_size: i64,
    pub total_count: i64,
}

/// What a listing asks of the store.
pub struct NoteListing {
    pub page: i64,
    pub page_size: i64,
    pub offset: i64,
    pub sort_field: String,
    pub order: String,
}

/// The page asked for, the first where a smaller one was asked for.
pub open spec fn page_of(page: i64) -> int {
    if page < 1 {
        1
    } else {
        page as int
    }
}

/// The page size asked for, held between 1 and 100.
pub open spec fn page_size_of(page_size: i64) -> int {
    if page_size < 1 {
        1
    } else if page_size > 100 {
        100
    } else {
        page_size as int
    }
}

/// The number of notes that the pages before the one asked for hold.
pub open spec fn offset_of(page: i64, page_size: i64) -> int {
    (page_of(page) - 1) * page_size_of(page_size)
}

/// The column to sort by: the one asked for where it is one of the three
/// that may be sorted by, else the time of creation.
pub open spec fn sort_field_of(field: Seq<char>) -> Seq<char> {
    if field == "title"@ {
        "title"@
    } else if field == "created_at"@ {
        "created_at"@
    } else if field == "updated_at"@ {
        "updated_at"@
    } else {
        "created_at"@
    }
}

/// The direction to sort in: ascending where "asc" was asked for, in any
/// case of its letters, else descending.
pub open spec fn order_of(order: Seq<char>) -> Seq<char> {
    if lowercased(order) == "asc"@ {
        "ASC"@
    } else {
        "DESC"@
    }
}

pub fn validate_sort_field(field: &str) -> (column: &str)
    ensures
        column@ == sort_field_of(field@),
{
    if same_text(field, "title") {
        "title"
    } else if same_text(field, "created_at") {
        "created_at"
    } else if same_text(field, "updated_at") {
        "updated_at"
    } else {
        "created_at"
    }
}

pub fn sort_order(order: &str) -> (direction: &str)
    ensures
        direction@ == order_of(order@),
{
    let lower = to_lowercase(order);
    if same_text(lower.as_str(), "asc") {
        "ASC"
    } else {
        "DESC"
    }
}

/// Whether the offset of a page fits the store's 64-bit row counts.
pub open spec fn offset_fits(page: i64, page_size: i64) -> bool {
    offset_of(page, page_size) <= i64::MAX
}

/// Lays out a listing whose offset fits.
pub fn list_notes(params: &NoteQueryParams) -> (listing: NoteListing)
    requires
        offset_fits(params.page, params.page_size),
    ensures
        listing.page == page_of(params.page),
        listing.page_size == page_size_of(params.page_size),
        listing.offset == offset_of(params.page, params.page_size),
        listing.sort_field@ == sort_field_of(params.sort@),
        listing.order@ == order_of(params.order@),
{
    let page: i64 = if params.page < 1 {
        1
    } else {
        params.page
    };
    let page_size: i64 = if params.page_size < 1 {
        1
    } else if params.page_size > 100 {
        100
    } else {
        params.page_size
    };
    assert(0 <= (page - 1) * page_size) by (nonlinear_arith)
        requires
            page >= 1,
            page_size >= 1,
    ;
    let offset: i64 = (page - 1) * page_size;
    NoteListing {
        page,
        page_size,
        offset,
        sort_field: validate_sort_field(params.sort.as_str()).to_owned(),
        order: sort_order(params.order.as_str()).to_owned(),
    }
}

/// Lays out a listing, or reports that its offset does not fit.
pub fn try_list_notes(params: &NoteQueryParams) -> (r: Option<NoteListing>)
    ensures
        r is Some == offset_fits(params.page, params.page_size),
        r matches Some(listing) ==> {
            &&& listing.page == page_of(params.page)
            &&& listing.page_size == page_size_of(params.page_size)
            &&& listing.offset == offset_of(params.page, params.page_size)
            &&& listing.sort_field@ == sort_field_of(params.sort@)
            &&& listing.order@ == order_of(params.order@)
        },
{
    let page: i64 = if params.page < 1 {
        1
    } else {
        params.page
    };
    let page_size: i64 = if params.page_size < 1 {
        1
    } else if params.page_size > 100 {
        100
    } else {
        params.page_size
    };
    match (page - 1).checked_mul(page_size) {
        Some(_) => Some(list_notes(params)),
        None => {
            assert(0 <= (page - 1) * page_size) by (nonlinear_arith)
                requires
                    page >= 1,
                    page_size >= 1,
            ;
            None
        },
    }
}

/// An entry of a listing: a note with the names of its tags, which are left
/// out where it has none.
pub fn note_list_item(
    note_id: u128,
    title: String,
    content: String,
    created_at: String,
    updated_at: String,
    tags: Vec<String>,
) -> (item: NoteListItem)
    ensures
        item.note_id@ == uuid_text(note_id),
        item.title@ == title@,
        item.content@ == content@,
        item.created_at@ == created_at@,
        item.updated_at@ == updated_at@,
        item.tags == if tags@.len() == 0 {
            None::<Vec<String>>
        } else {
            Some(tags)
        },
{
    let tags = if tags.len() == 0 {
        None
    } else {
        Some(tags)
    };
    NoteListItem { note_id: uuid_to_text(note_id), title, content, created_at, updated_at, tags }
}

} // verus!
