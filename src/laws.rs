//! Properties that relate several operations, proved over the models that
//! the operations' contracts use.

use vstd::prelude::*;
use crate::company::CompanyView;
use crate::search::matches_search;
use crate::query::spec_total_page;
use crate::store::{code_taken, email_taken, has_id, ids_unique, lookup, matching, page_of};
use crate::usecase::records_ok;

verus! {

/// A record that a create has just appended under a fresh id is the one that
/// a lookup by that id finds: create followed by get gives the record back.
pub proof fn lemma_created_record_is_found(rows: Seq<CompanyView>, c: CompanyView)
    requires
        ids_unique(rows),
        !has_id(rows, c.id),
    ensures
        lookup(rows.push(c), c.id) == Some(c),
{
    let after = rows.push(c);
    assert(after[rows.len() as int] == c);
    assert(has_id(after, c.id));
    let k = choose|i: int| 0 <= i < after.len() && (#[trigger] after[i]).id == c.id;
    if k != rows.len() {
        assert(rows[k] == after[k]);
        assert(has_id(rows, c.id));
    }
}

/// Uniqueness probes exclude the record being updated: its own email and
/// code never count as taken.
pub proof fn lemma_own_email_and_code_are_free(rows: Seq<CompanyView>, k: int)
    requires
        records_ok(rows),
        0 <= k < rows.len(),
    ensures
        !email_taken(rows, rows[k].email, Some(rows[k].id)),
        !code_taken(rows, rows[k].code, Some(rows[k].id)),
        has_id(rows, rows[k].id),
{
    assert(rows[k] == rows[k]);
}

/// The email of a record with another id is taken for an update of `id`.
pub proof fn lemma_other_email_is_taken(rows: Seq<CompanyView>, j: int, id: u128)
    requires
        0 <= j < rows.len(),
        rows[j].id != id,
    ensures
        email_taken(rows, rows[j].email, Some(id)),
        code_taken(rows, rows[j].code, Some(id)),
{
    assert(rows[j] == rows[j]);
}

/// A listing filter keeps exactly the records that match the search term:
/// everything it gives matches and is stored, and every stored record that
/// matches is given.
pub proof fn lemma_matching_is_the_filter(rows: Seq<CompanyView>, term: Option<Seq<char>>)
    ensures
        forall|x: CompanyView| #[trigger] matching(rows, term).contains(x) ==> matches_search(x, term)
            && rows.contains(x),
        forall|i: int|
            0 <= i < rows.len() && matches_search(rows[i], term) ==> #[trigger] matching(
                rows,
                term,
            ).contains(rows[i]),
    decreases rows.len(),
{
    if rows.len() > 0 {
        let init = rows.drop_last();
        lemma_matching_is_the_filter(init, term);
        let m = matching(rows, term);
        let mi = matching(init, term);
        assert forall|x: CompanyView| #[trigger] m.contains(x) implies matches_search(x, term)
            && rows.contains(x) by {
            let k = choose|k: int| 0 <= k < m.len() && m[k] == x;
            if k < mi.len() {
                assert(mi[k] == x);
                assert(mi.contains(x));
                let j = choose|j: int| 0 <= j < init.len() && init[j] == x;
                assert(rows[j] == x);
            } else {
                assert(x == rows.last());
                assert(rows[rows.len() - 1] == x);
            }
        }
        assert forall|i: int|
            0 <= i < rows.len() && matches_search(rows[i], term) implies #[trigger] m.contains(
            rows[i],
        ) by {
            if i < rows.len() - 1 {
                assert(init[i] == rows[i]);
                assert(mi.contains(init[i]));
                let k = choose|k: int| 0 <= k < mi.len() && mi[k] == rows[i];
                assert(m[k] == rows[i]);
            } else {
                assert(m[mi.len() as int] == rows[i]);
            }
        }
    }
}

proof fn lemma_offset_past_end(len: nat, page: nat, per_page: nat)
    requires
        page >= 1,
        per_page >= 1,
    ensures
        ((page - 1) * per_page >= len) <==> page > spec_total_page(len, per_page),
{
    let q = len / per_page;
    let r = len % per_page;
    assert(len == q * per_page + r && r < per_page) by (nonlinear_arith)
        requires
            per_page >= 1,
            q == len / per_page,
            r == len % per_page,
    ;
    let k = (page - 1) as nat;
    if r == 0 {
        assert((k * per_page >= q * per_page) <==> k >= q) by (nonlinear_arith)
            requires
                per_page >= 1,
        ;
    } else {
        assert((k * per_page >= q * per_page + r) <==> k >= q + 1) by (nonlinear_arith)
            requires
                per_page >= 1,
                0 < r < per_page,
        ;
    }
}

/// Page `page` (counted from 1) at `per_page` rows a page holds the rows from
/// index `(page - 1) * per_page` on, `per_page` of them where that many
/// remain, and it is empty exactly when `page` is past the page count
/// `ceil(len / per_page)`.
pub proof fn lemma_page_window(rows: Seq<CompanyView>, page: nat, per_page: nat)
    requires
        page >= 1,
        per_page >= 1,
    ensures
        (page - 1) * per_page + per_page <= rows.len() ==> page_of(
            rows,
            ((page - 1) * per_page) as nat,
            per_page,
        ) == rows.subrange((page - 1) * per_page, (page - 1) * per_page + per_page),
        page_of(rows, ((page - 1) * per_page) as nat, per_page).len() == 0 <==> page
            > spec_total_page(rows.len(), per_page),
{
    assert((page - 1) * per_page >= 0) by (nonlinear_arith)
        requires
            page >= 1,
    ;
    lemma_offset_past_end(rows.len(), page, per_page);
}

} // verus!
