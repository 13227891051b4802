//! The order of a listing in the in-memory repository: a stable sort of
//! records by one column of the allow-list, ascending or descending. Text is
//! ordered by code point; a database orders by its own collation instead.

use vstd::prelude::*;
use crate::company::{Company, CompanyView};
use crate::query::{SortColumn, SortOrder};
use crate::store::views;

verus! {

/// Lexicographic order of texts by code point, a proper prefix first.
pub open spec fn text_lt(a: Seq<char>, b: Seq<char>) -> bool
    decreases a.len(),
{
    if a.len() == 0 {
        b.len() > 0
    } else if b.len() == 0 {
        false
    } else if a[0] != b[0] {
        (a[0] as u32) < (b[0] as u32)
    } else {
        text_lt(a.drop_first(), b.drop_first())
    }
}

/// `x` has a smaller key than `y` in the given column.
pub open spec fn key_lt(x: CompanyView, y: CompanyView, c: SortColumn) -> bool {
    match c {
        SortColumn::Name => text_lt(x.name, y.name),
        SortColumn::Email => text_lt(x.email, y.email),
        SortColumn::Code => text_lt(x.code, y.code),
        SortColumn::CreatedAt => x.created_at < y.created_at,
    }
}

/// `x` goes strictly before `y` in the order.
pub open spec fn goes_before(x: CompanyView, y: CompanyView, o: SortOrder) -> bool {
    if o.descending {
        key_lt(y, x, o.column)
    } else {
        key_lt(x, y, o.column)
    }
}

/// `x` placed into the ordered `s` after every record that it does not go
/// before.
pub open spec fn insert_ordered(s: Seq<CompanyView>, x: CompanyView, o: SortOrder) -> Seq<
    CompanyView,
>
    decreases s.len(),
{
    if s.len() == 0 {
        seq![x]
    } else if goes_before(x, s.last(), o) {
        insert_ordered(s.drop_last(), x, o).push(s.last())
    } else {
        s.push(x)
    }
}

/// The stable sort of `s`: records with equal keys keep their order.
pub open spec fn sort_rows(s: Seq<CompanyView>, o: SortOrder) -> Seq<CompanyView>
    decreases s.len(),
{
    if s.len() == 0 {
        s
    } else {
        insert_ordered(sort_rows(s.drop_last(), o), s.last(), o)
    }
}

/// The records in the requested order; without one, as they are.
pub open spec fn ordered(s: Seq<CompanyView>, sort: Option<SortOrder>) -> Seq<CompanyView> {
    match sort {
        Some(o) => sort_rows(s, o),
        None => s,
    }
}

/// Whether `a` comes before `b` in code-point order.
pub fn text_less(a: &str, b: &str) -> (r: bool)
    ensures
        r == text_lt(a@, b@),
{
    let n = a.unicode_len();
    let m = b.unicode_len();
    let mut i: usize = 0;
    assert(a@.subrange(0, n as int) =~= a@);
    assert(b@.subrange(0, m as int) =~= b@);
    while i < n && i < m
        invariant
            n == a@.len(),
            m == b@.len(),
            i <= n,
            i <= m,
            text_lt(a@, b@) == text_lt(a@.subrange(i as int, n as int), b@.subrange(i as int, m as int)),
        decreases n - i,
    {
        let ca = a.get_char(i);
        let cb = b.get_char(i);
        let ghost sa = a@.subrange(i as int, n as int);
        let ghost sb = b@.subrange(i as int, m as int);
        assert(sa[0] == ca && sb[0] == cb);
        if ca != cb {
            return (ca as u32) < (cb as u32);
        }
        assert(sa.drop_first() =~= a@.subrange(i + 1, n as int));
        assert(sb.drop_first() =~= b@.subrange(i + 1, m as int));
        i = i + 1;
    }
    let ghost sa = a@.subrange(i as int, n as int);
    let ghost sb = b@.subrange(i as int, m as int);
    assert(i == n ==> sa.len() == 0);
    assert(i == m ==> sb.len() == 0);
    i == n && i < m
}

fn key_less(x: &Company, y: &Company, c: SortColumn) -> (r: bool)
    ensures
        r == key_lt(x@, y@, c),
{
    match c {
        SortColumn::Name => text_less(x.name.as_str(), y.name.as_str()),
        SortColumn::Email => text_less(x.email.as_str(), y.email.as_str()),
        SortColumn::Code => text_less(x.code.as_str(), y.code.as_str()),
        SortColumn::CreatedAt => x.created_at < y.created_at,
    }
}

/// Whether `x` goes strictly before `y` in the order.
pub fn before(x: &Company, y: &Company, o: SortOrder) -> (r: bool)
    ensures
        r == goes_before(x@, y@, o),
{
    if o.descending {
        key_less(y, x, o.column)
    } else {
        key_less(x, y, o.column)
    }
}

proof fn lemma_insert_at(s: Seq<CompanyView>, x: CompanyView, o: SortOrder, j: int)
    requires
        0 <= j <= s.len(),
        forall|k: int| j <= k < s.len() ==> goes_before(x, #[trigger] s[k], o),
        j > 0 ==> !goes_before(x, s[j - 1], o),
    ensures
        insert_ordered(s, x, o) == s.subrange(0, j) + seq![x] + s.subrange(j, s.len() as int),
    decreases s.len(),
{
    if s.len() == 0 {
        assert(seq![x] =~= s.subrange(0, j) + seq![x] + s.subrange(j, s.len() as int));
    } else if goes_before(x, s.last(), o) {
        let init = s.drop_last();
        assert(j < s.len());
        assert forall|k: int| j <= k < init.len() implies goes_before(x, #[trigger] init[k], o) by {
            assert(init[k] == s[k]);
        }
        if j > 0 {
            assert(init[j - 1] == s[j - 1]);
        }
        lemma_insert_at(init, x, o, j);
        assert(insert_ordered(s, x, o) =~= s.subrange(0, j) + seq![x] + s.subrange(j, s.len() as int));
    } else {
        assert(j == s.len());
        assert(s.push(x) =~= s.subrange(0, j) + seq![x] + s.subrange(j, s.len() as int));
    }
}

/// Places `x` into the ordered rows after every row that it does not go
/// before.
fn insert_in_order(out: &mut Vec<Company>, x: Company, o: SortOrder)
    ensures
        views(final(out)@) == insert_ordered(views(old(out)@), x@, o),
{
    let mut j: usize = out.len();
    let ghost s = views(out@);
    while j > 0 && before(&x, &out[j - 1], o)
        invariant
            out@ == old(out)@,
            s == views(out@),
            j <= out@.len(),
            forall|k: int| j <= k < s.len() ==> goes_before(x@, #[trigger] s[k], o),
        decreases j,
    {
        j = j - 1;
    }
    proof {
        lemma_insert_at(s, x@, o, j as int);
    }
    let ghost xv = x@;
    out.insert(j, x);
    assert(views(out@) =~= s.subrange(0, j as int) + seq![xv] + s.subrange(j as int, s.len() as int));
}

/// Sorts the rows stably in the order.
pub fn sort_companies(rows: Vec<Company>, o: SortOrder) -> (r: Vec<Company>)
    ensures
        views(r@) == sort_rows(views(rows@), o),
{
    let mut out: Vec<Company> = Vec::new();
    let mut i: usize = 0;
    let n = rows.len();
    let ghost all = views(rows@);
    let mut rest = rows;
    while i < n
        invariant
            n == all.len(),
            i <= n,
            rest@.len() == n - i,
            forall|k: int| 0 <= k < n - i ==> (#[trigger] rest@[k])@ == all[i + k],
            views(out@) == sort_rows(all.subrange(0, i as int), o),
        decreases n - i,
    {
        let x = rest.remove(0);
        let ghost before_out = views(out@);
        assert(x@ == all[i as int]);
        assert(all.subrange(0, i + 1).drop_last() =~= all.subrange(0, i as int));
        assert(all.subrange(0, i + 1).last() == all[i as int]);
        insert_in_order(&mut out, x, o);
        assert forall|k: int| 0 <= k < n - (i + 1) implies (#[trigger] rest@[k])@ == all[i + 1 + k] by {
        }
        i = i + 1;
    }
    assert(all.subrange(0, n as int) =~= all);
    out
}

proof fn lemma_text_lt_asymmetric(a: Seq<char>, b: Seq<char>)
    ensures
        !(text_lt(a, b) && text_lt(b, a)),
    decreases a.len(),
{
    if a.len() > 0 && b.len() > 0 && a[0] == b[0] {
        lemma_text_lt_asymmetric(a.drop_first(), b.drop_first());
    }
}

proof fn lemma_goes_before_asymmetric(x: CompanyView, y: CompanyView, o: SortOrder)
    ensures
        !(goes_before(x, y, o) && goes_before(y, x, o)),
{
    lemma_text_lt_asymmetric(x.name, y.name);
    lemma_text_lt_asymmetric(x.email, y.email);
    lemma_text_lt_asymmetric(x.code, y.code);
}

/// No record of `s` goes before the one ahead of it.
pub open spec fn in_order(s: Seq<CompanyView>, o: SortOrder) -> bool {
    forall|i: int| 0 <= i < s.len() - 1 ==> !goes_before(#[trigger] s[i + 1], s[i], o)
}

proof fn lemma_insert_ordered(s: Seq<CompanyView>, x: CompanyView, o: SortOrder)
    requires
        in_order(s, o),
    ensures
        insert_ordered(s, x, o).to_multiset() == s.to_multiset().insert(x),
        in_order(insert_ordered(s, x, o), o),
        s.len() > 0 ==> insert_ordered(s, x, o).last() == s.last() || insert_ordered(s, x, o).last()
            == x,
        s.len() == 0 ==> insert_ordered(s, x, o).last() == x,
    decreases s.len(),
{
    broadcast use vstd::seq_lib::to_multiset_build;

    if s.len() == 0 {
        assert(seq![x] =~= s.push(x));
    } else if goes_before(x, s.last(), o) {
        let init = s.drop_last();
        assert forall|i: int| 0 <= i < init.len() - 1 implies !goes_before(
            #[trigger] init[i + 1],
            init[i],
            o,
        ) by {
            assert(init[i + 1] == s[i + 1] && init[i] == s[i]);
        }
        lemma_insert_ordered(init, x, o);
        let mid = insert_ordered(init, x, o);
        let r = mid.push(s.last());
        assert(s =~= init.push(s.last()));
        assert(r.to_multiset() =~= s.to_multiset().insert(x));
        assert forall|i: int| 0 <= i < r.len() - 1 implies !goes_before(#[trigger] r[i + 1], r[i], o) by {
            if i + 1 == r.len() - 1 {
                lemma_goes_before_asymmetric(x, s.last(), o);
                assert(r[i] == mid.last());
                assert(r[i + 1] == s.last());
                if init.len() > 0 {
                    let k = s.len() - 2;
                    assert(s[k + 1] == s.last() && s[k] == init.last());
                    assert(!goes_before(s[k + 1], s[k], o));
                }
            } else {
                assert(r[i] == mid[i] && r[i + 1] == mid[i + 1]);
            }
        }
    } else {
        let r = s.push(x);
        assert forall|i: int| 0 <= i < r.len() - 1 implies !goes_before(#[trigger] r[i + 1], r[i], o) by {
            if i + 1 < s.len() {
                assert(r[i] == s[i] && r[i + 1] == s[i + 1]);
            }
        }
    }
}

/// The order of a listing is a sort: it keeps every record, as many times as
/// it occurs, and no record in it goes before the one ahead of it.
pub proof fn lemma_sort_rows_is_a_sort(s: Seq<CompanyView>, o: SortOrder)
    ensures
        sort_rows(s, o).to_multiset() == s.to_multiset(),
        in_order(sort_rows(s, o), o),
    decreases s.len(),
{
    broadcast use vstd::seq_lib::to_multiset_build;

    if s.len() > 0 {
        lemma_sort_rows_is_a_sort(s.drop_last(), o);
        lemma_insert_ordered(sort_rows(s.drop_last(), o), s.last(), o);
        assert(s =~= s.drop_last().push(s.last()));
    }
}

} // verus!
