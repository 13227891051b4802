//! The parameterised SQL of the listing: the caller's text only ever reaches
//! the store as a bound parameter, and ORDER BY names a column of the
//! allow-list.

use vstd::prelude::*;
use crate::query::{ListQuery, SortColumn, SortOrder, query_view_search};

verus! {

/// Fetches one record by id (`$1`).
pub const SELECT_BY_ID_SQL: &'static str = "SELECT id, name, email, code, phone_number, address, created_at FROM companies WHERE id = $1";

/// Whether a record has the email `$1`.
pub const EMAIL_EXISTS_SQL: &'static str = "SELECT EXISTS (SELECT 1 FROM companies WHERE email = $1)";

/// Whether a record other than `$2` has the email `$1`.
pub const EMAIL_EXISTS_EXCEPT_SQL: &'static str = "SELECT EXISTS (SELECT 1 FROM companies WHERE email = $1 AND id != $2)";

/// Whether a record has the code `$1`.
pub const CODE_EXISTS_SQL: &'static str = "SELECT EXISTS (SELECT 1 FROM companies WHERE code = $1)";

/// Whether a record other than `$2` has the code `$1`.
pub const CODE_EXISTS_EXCEPT_SQL: &'static str = "SELECT EXISTS (SELECT 1 FROM companies WHERE code = $1 AND id != $2)";

/// Inserts a record: id, name, email, code, phone number, address, creation time.
pub const INSERT_SQL: &'static str = "INSERT INTO companies (id, name, email, code, phone_number, address, created_at) VALUES ($1, $2, $3, $4, $5, $6, $7)";

/// Rewrites the mutable fields of record `$6`: name, email, code, phone number, address.
pub const UPDATE_SQL: &'static str = "UPDATE companies SET name = $1, email = $2, code = $3, phone_number = $4, address = $5 WHERE id = $6";

/// Deletes record `$1`.
pub const DELETE_SQL: &'static str = "DELETE FROM companies WHERE id = $1";

/// A value bound to a placeholder.
#[derive(Debug, Clone, PartialEq, Eq)]
pub enum SqlParam {
    Text(String),
    Int(i64),
}

/// A statement with its placeholders `$1`, `$2`, ... and the values bound to them.
#[derive(Debug, Clone, PartialEq, Eq)]
pub struct SqlQuery {
    pub sql: String,
    pub params: Vec<SqlParam>,
}

pub open spec fn is_like_special(c: char) -> bool {
    c == '%' || c == '_' || c == '\\'
}

/// The term with each LIKE wildcard and each backslash escaped by a backslash,
/// so that it matches only itself.
pub open spec fn escape_like(s: Seq<char>) -> Seq<char>
    decreases s.len(),
{
    if s.len() == 0 {
        Seq::empty()
    } else {
        let c = s.last();
        escape_like(s.drop_last()) + if is_like_special(c) {
            seq!['\\', c]
        } else {
            seq![c]
        }
    }
}

pub open spec fn is_text_param(p: SqlParam, s: Seq<char>) -> bool {
    p matches SqlParam::Text(t) && t@ == s
}

/// The pattern that finds the term anywhere in a column.
pub open spec fn like_pattern(term: Seq<char>) -> Seq<char> {
    "%"@ + escape_like(term) + "%"@
}

pub open spec fn where_sql(search: Option<Seq<char>>) -> Seq<char> {
    if search is Some {
        " WHERE (name ILIKE $1 OR code ILIKE $1)"@
    } else {
        Seq::empty()
    }
}

pub open spec fn column_sql(c: SortColumn) -> Seq<char> {
    match c {
        SortColumn::Name => "name"@,
        SortColumn::Email => "email"@,
        SortColumn::Code => "code"@,
        SortColumn::CreatedAt => "created_at"@,
    }
}

pub open spec fn order_sql(sort: Option<SortOrder>) -> Seq<char> {
    match sort {
        Some(o) => " ORDER BY "@ + column_sql(o.column) + if o.descending {
            " DESC"@
        } else {
            " ASC"@
        },
        None => Seq::empty(),
    }
}

pub open spec fn limit_sql(search: Option<Seq<char>>) -> Seq<char> {
    if search is Some {
        " LIMIT $2 OFFSET $3"@
    } else {
        " LIMIT $1 OFFSET $2"@
    }
}

pub open spec fn count_sql(search: Option<Seq<char>>) -> Seq<char> {
    "SELECT COUNT(id) FROM companies"@ + where_sql(search)
}

pub open spec fn find_sql(search: Option<Seq<char>>, sort: Option<SortOrder>) -> Seq<char> {
    "SELECT id, name, email, code, phone_number, address, created_at FROM companies"@ + where_sql(
        search,
    ) + order_sql(sort) + limit_sql(search)
}

/// Escapes the LIKE wildcards of a search term.
pub fn escape_like_term(s: &str) -> (r: String)
    ensures
        r@ == escape_like(s@),
{
    let n = s.unicode_len();
    let mut out = String::new();
    let mut i: usize = 0;
    while i < n
        invariant
            n == s@.len(),
            i <= n,
            out@ == escape_like(s@.subrange(0, i as int)),
        decreases n - i,
    {
        let c = s.get_char(i);
        assert(s@.subrange(0, i + 1).drop_last() =~= s@.subrange(0, i as int));
        if c == '%' || c == '_' || c == '\\' {
            out.append("\\");
            proof {
                reveal_strlit("\\");
            }
        }
        let piece = s.substring_char(i, i + 1);
        assert(piece@ =~= seq![c]);
        out.append(piece);
        assert(out@ =~= escape_like(s@.subrange(0, i + 1)));
        i = i + 1;
    }
    assert(s@.subrange(0, n as int) =~= s@);
    out
}

fn like_param(term: &String) -> (r: SqlParam)
    ensures
        is_text_param(r, like_pattern(term@)),
{
    let mut p = "%".to_owned();
    let e = escape_like_term(term.as_str());
    p.append(e.as_str());
    p.append("%");
    SqlParam::Text(p)
}

/// Appends the search condition to a statement that has no parameters yet,
/// with the pattern of the term as `$1`; without a term, nothing.
pub(crate) fn apply_search_filter(sql: &mut String, params: &mut Vec<SqlParam>, search: &Option<String>)
    requires
        old(params)@.len() == 0,
    ensures
        final(sql)@ == old(sql)@ + where_sql(query_view_search(*search)),
        search matches Some(t) ==> final(params)@.len() == 1 && is_text_param(
            final(params)@[0],
            like_pattern(t@),
        ),
        search is None ==> final(params)@.len() == 0,
{
    match search {
        Some(t) => {
            sql.append(" WHERE (name ILIKE $1 OR code ILIKE $1)");
            params.push(like_param(t));
        },
        None => {
            assert(sql@ =~= old(sql)@ + where_sql(query_view_search(*search)));
        },
    }
}

/// The statement that counts the rows matching the search term.
pub fn build_count_query(search: &Option<String>) -> (r: SqlQuery)
    ensures
        r.sql@ == count_sql(query_view_search(*search)),
        search matches Some(t) ==> r.params@.len() == 1 && is_text_param(
            r.params@[0],
            like_pattern(t@),
        ),
        search is None ==> r.params@.len() == 0,
{
    let mut sql = "SELECT COUNT(id) FROM companies".to_owned();
    let mut params: Vec<SqlParam> = Vec::new();
    apply_search_filter(&mut sql, &mut params, search);
    assert(sql@ =~= count_sql(query_view_search(*search)));
    sql_query(sql, params)
}

fn sql_query(sql: String, params: Vec<SqlParam>) -> (r: SqlQuery)
    ensures
        r.sql == sql,
        r.params == params,
{
    SqlQuery { sql, params }
}

fn column_text(c: SortColumn) -> (r: &'static str)
    ensures
        r@ == column_sql(c),
{
    match c {
        SortColumn::Name => "name",
        SortColumn::Email => "email",
        SortColumn::Code => "code",
        SortColumn::CreatedAt => "created_at",
    }
}

/// The statement that fetches one page of the rows matching the search term,
/// in the requested order.
pub fn build_find_query(q: &ListQuery) -> (r: SqlQuery)
    requires
        q.offset <= i64::MAX,
    ensures
        r.sql@ == find_sql(query_view_search(q.search), q.sort),
        q.search matches Some(t) ==> r.params@.len() == 3 && is_text_param(
            r.params@[0],
            like_pattern(t@),
        ) && r.params@[1] == SqlParam::Int(q.per_page as i64) && r.params@[2] == SqlParam::Int(
            q.offset as i64,
        ),
        q.search is None ==> (r.params@.len() == 2 && r.params@[0] == SqlParam::Int(
            q.per_page as i64,
        ) && r.params@[1] == SqlParam::Int(q.offset as i64)),
{
    let mut sql = "SELECT id, name, email, code, phone_number, address, created_at FROM companies".to_owned();
    let mut params: Vec<SqlParam> = Vec::new();
    let ghost search = query_view_search(q.search);
    apply_search_filter(&mut sql, &mut params, &q.search);
    let ghost base = sql@;
    match q.sort {
        Some(o) => {
            sql.append(" ORDER BY ");
            sql.append(column_text(o.column));
            if o.descending {
                sql.append(" DESC");
            } else {
                sql.append(" ASC");
            }
        },
        None => {},
    }
    assert(sql@ =~= base + order_sql(q.sort));
    let ghost ordered = sql@;
    match &q.search {
        Some(_) => sql.append(" LIMIT $2 OFFSET $3"),
        None => sql.append(" LIMIT $1 OFFSET $2"),
    }
    params.push(SqlParam::Int(q.per_page as i64));
    params.push(SqlParam::Int(q.offset as i64));
    assert(sql@ =~= find_sql(search, q.sort));
    sql_query(sql, params)
}

} // verus!
