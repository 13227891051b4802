//! Listing queries: the caller's pagination request, its normalised form with
//! the sort restricted to an allow-list, and the page arithmetic.

use vstd::prelude::*;
use crate::response::ResponseError;

verus! {

/// The query string of a listing request, as the caller sent it.
#[derive(Debug, Clone, PartialEq, Eq, Default)]
pub struct PaginationRequest {
    pub page: Option<u32>,
    pub per_page: Option<u32>,
    pub offset: Option<u32>,
    pub search: Option<String>,
    pub sort: Option<String>,
}

/// The columns that a listing may be ordered by.
#[derive(Debug, Clone, Copy, PartialEq, Eq, Structural)]
pub enum SortColumn {
    Name,
    Email,
    Code,
    CreatedAt,
}

/// An ORDER BY target taken from the allow-list.
#[derive(Debug, Clone, Copy, PartialEq, Eq, Structural)]
pub struct SortOrder {
    pub column: SortColumn,
    pub descending: bool,
}

/// A listing request with defaults filled in and the offset derived.
#[derive(Debug, Clone, PartialEq, Eq)]
pub struct ListQuery {
    pub page: u32,
    pub per_page: u32,
    pub offset: u64,
    pub search: Option<String>,
    pub sort: Option<SortOrder>,
}

/// The sort expressions that are accepted: a column name, ascending, or the
/// column name after `-`, descending.
pub open spec fn sort_of(s: Seq<char>) -> Option<SortOrder> {
    if s == "name"@ {
        Some(SortOrder { column: SortColumn::Name, descending: false })
    } else if s == "-name"@ {
        Some(SortOrder { column: SortColumn::Name, descending: true })
    } else if s == "email"@ {
        Some(SortOrder { column: SortColumn::Email, descending: false })
    } else if s == "-email"@ {
        Some(SortOrder { column: SortColumn::Email, descending: true })
    } else if s == "code"@ {
        Some(SortOrder { column: SortColumn::Code, descending: false })
    } else if s == "-code"@ {
        Some(SortOrder { column: SortColumn::Code, descending: true })
    } else if s == "created_at"@ {
        Some(SortOrder { column: SortColumn::CreatedAt, descending: false })
    } else if s == "-created_at"@ {
        Some(SortOrder { column: SortColumn::CreatedAt, descending: true })
    } else {
        None
    }
}

fn is_text(s: &String, lit: &str) -> (r: bool)
    ensures
        r == (s@ == lit@),
{
    let t = lit.to_owned();
    *s == t
}

/// Reads a sort expression against the allow-list.
pub fn parse_sort(s: &String) -> (r: Option<SortOrder>)
    ensures
        r == sort_of(s@),
{
    if is_text(s, "name") {
        Some(SortOrder { column: SortColumn::Name, descending: false })
    } else if is_text(s, "-name") {
        Some(SortOrder { column: SortColumn::Name, descending: true })
    } else if is_text(s, "email") {
        Some(SortOrder { column: SortColumn::Email, descending: false })
    } else if is_text(s, "-email") {
        Some(SortOrder { column: SortColumn::Email, descending: true })
    } else if is_text(s, "code") {
        Some(SortOrder { column: SortColumn::Code, descending: false })
    } else if is_text(s, "-code") {
        Some(SortOrder { column: SortColumn::Code, descending: true })
    } else if is_text(s, "created_at") {
        Some(SortOrder { column: SortColumn::CreatedAt, descending: false })
    } else if is_text(s, "-created_at") {
        Some(SortOrder { column: SortColumn::CreatedAt, descending: true })
    } else {
        None
    }
}

pub open spec fn page_or_default(o: Option<u32>) -> u32 {
    match o {
        Some(p) => p,
        None => 1,
    }
}

/// A search term filters only when it is present and non-empty.
pub open spec fn search_term(o: Option<String>) -> Option<Seq<char>> {
    match o {
        Some(s) => if s@.len() > 0 { Some(s@) } else { None },
        None => None,
    }
}

pub open spec fn sort_text(o: Option<String>) -> Seq<char> {
    match o {
        Some(s) => s@,
        None => Seq::empty(),
    }
}

/// Whether a request is accepted: page and page size at least 1 once the
/// defaults are applied, and a sort, if any, from the allow-list.
pub open spec fn request_ok(q: PaginationRequest) -> bool {
    &&& page_or_default(q.page) >= 1
    &&& page_or_default(q.per_page) >= 1
    &&& (sort_text(q.sort).len() == 0 || sort_of(sort_text(q.sort)) is Some)
}

/// The message of the first rule that a refused request breaks: page, then
/// page size, then sort.
pub open spec fn pagination_error(q: PaginationRequest) -> Seq<char> {
    if page_or_default(q.page) < 1 {
        "page must be at least 1"@
    } else if page_or_default(q.per_page) < 1 {
        "per_page must be at least 1"@
    } else {
        "invalid sort field"@
    }
}

/// The order that a request asks for: none for an absent or empty sort.
pub open spec fn requested_sort(q: PaginationRequest) -> Option<SortOrder> {
    if sort_text(q.sort).len() == 0 {
        None
    } else {
        sort_of(sort_text(q.sort))
    }
}

pub open spec fn query_view_search(o: Option<String>) -> Option<Seq<char>> {
    match o {
        Some(s) => Some(s@),
        None => None,
    }
}

/// Fills in the defaults of a listing request (page 1, one row per page),
/// derives the offset from page and page size (any offset the caller sent is
/// ignored), drops an empty search term and checks the sort against the
/// allow-list.
pub fn normalize_pagination(q: &PaginationRequest) -> (r: Result<ListQuery, ResponseError>)
    ensures
        r is Ok <==> request_ok(*q),
        !request_ok(*q) ==> (r matches Err(ResponseError::BadRequest(m)) && m@ == pagination_error(
            *q,
        )),
        page_or_default(q.page) < 1 ==> (r matches Err(ResponseError::BadRequest(m)) && m@
            == "page must be at least 1"@),
        page_or_default(q.page) >= 1 && page_or_default(q.per_page) < 1 ==> (r matches Err(
            ResponseError::BadRequest(m),
        ) && m@ == "per_page must be at least 1"@),
        page_or_default(q.page) >= 1 && page_or_default(q.per_page) >= 1 && !request_ok(*q)
            ==> (r matches Err(ResponseError::BadRequest(m)) && m@ == "invalid sort field"@),
        r matches Ok(l) ==> {
            &&& l.page == page_or_default(q.page)
            &&& l.per_page == page_or_default(q.per_page)
            &&& l.offset == (l.page - 1) * l.per_page
            &&& query_view_search(l.search) == search_term(q.search)
            &&& l.sort == requested_sort(*q)
        },
{
    let page = match q.page {
        Some(p) => p,
        None => 1,
    };
    let per_page = match q.per_page {
        Some(p) => p,
        None => 1,
    };
    if page < 1 {
        return Err(ResponseError::BadRequest("page must be at least 1".to_owned()));
    }
    if per_page < 1 {
        return Err(ResponseError::BadRequest("per_page must be at least 1".to_owned()));
    }
    let sort = match &q.sort {
        Some(s) => {
            if s.as_str().is_empty() {
                None
            } else {
                match parse_sort(s) {
                    Some(o) => Some(o),
                    None => {
                        return Err(ResponseError::BadRequest("invalid sort field".to_owned()));
                    },
                }
            }
        },
        None => None,
    };
    let search = match &q.search {
        Some(s) => {
            if s.as_str().is_empty() {
                None
            } else {
                Some(s.clone())
            }
        },
        None => None,
    };
    assert((page - 1) as u64 * per_page as u64 <= 0xffff_fffe_0000_0001u64) by (nonlinear_arith)
        requires
            1 <= page <= 0xffff_ffffu32,
            per_page <= 0xffff_ffffu32,
    ;
    let offset = (page - 1) as u64 * per_page as u64;
    Ok(ListQuery { page, per_page, offset, search, sort })
}

/// The number of pages that `total` rows fill at `per_page` rows a page:
/// `ceil(total / per_page)`.
pub open spec fn spec_total_page(total: nat, per_page: nat) -> nat
    recommends
        per_page > 0,
{
    if total % per_page == 0 {
        total / per_page
    } else {
        total / per_page + 1
    }
}

pub fn total_page(total: u64, per_page: u32) -> (r: u64)
    requires
        per_page > 0,
    ensures
        r == spec_total_page(total as nat, per_page as nat),
        (r - 1) * per_page < total <= r * per_page,
{
    let q = total / per_page as u64;
    let r = if total % per_page as u64 == 0 {
        q
    } else {
        assert(q < 0xffff_ffff_ffff_ffffu64) by (nonlinear_arith)
            requires
                per_page > 0,
                q == total / per_page as u64,
                total % per_page as u64 != 0,
        ;
        q + 1
    };
    assert((r - 1) * per_page < total <= r * per_page) by (nonlinear_arith)
        requires
            per_page > 0,
            q == total / per_page as u64,
            r == (if total % per_page as u64 == 0 { q as int } else { q + 1 }),
    ;
    r
}

} // verus!
