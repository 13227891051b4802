//! The repository of company records, held in memory in insertion order.
//! The rows are modelled as a sequence of [`CompanyView`]s with unique ids.

use vstd::prelude::*;
use crate::company::{Company, CompanyView};
use crate::query::{ListQuery, query_view_search};
use crate::order::{ordered, sort_companies};
use crate::search::{company_matches, matches_search};

verus! {

/// Why a repository write failed.
#[derive(Debug, Clone, Copy, PartialEq, Eq, Structural)]
pub enum StoreError {
    /// A record with the same id is already stored.
    DuplicateId,
    /// No record has the id.
    NotFound,
}

pub open spec fn views(v: Seq<Company>) -> Seq<CompanyView> {
    v.map_values(|c: Company| c@)
}

pub open spec fn opt_company_view(o: Option<Company>) -> Option<CompanyView> {
    match o {
        Some(c) => Some(c@),
        None => None,
    }
}

pub open spec fn ids_unique(rows: Seq<CompanyView>) -> bool {
    forall|i: int, j: int|
        0 <= i < rows.len() && 0 <= j < rows.len() && i != j ==> #[trigger] rows[i].id
            != #[trigger] rows[j].id
}

pub open spec fn has_id(rows: Seq<CompanyView>, id: u128) -> bool {
    exists|i: int| 0 <= i < rows.len() && (#[trigger] rows[i]).id == id
}

/// The record with the given id, if any.
pub open spec fn lookup(rows: Seq<CompanyView>, id: u128) -> Option<CompanyView> {
    if has_id(rows, id) {
        Some(rows[choose|i: int| 0 <= i < rows.len() && (#[trigger] rows[i]).id == id])
    } else {
        None
    }
}

/// Some record other than the one with id `exclude` has this email.
pub open spec fn email_taken(rows: Seq<CompanyView>, email: Seq<char>, exclude: Option<u128>) -> bool {
    exists|i: int|
        0 <= i < rows.len() && (#[trigger] rows[i]).email == email && exclude != Some(rows[i].id)
}

/// Some record other than the one with id `exclude` has this code.
pub open spec fn code_taken(rows: Seq<CompanyView>, code: Seq<char>, exclude: Option<u128>) -> bool {
    exists|i: int|
        0 <= i < rows.len() && (#[trigger] rows[i]).code == code && exclude != Some(rows[i].id)
}

/// The records that pass the search filter, in store order.
pub open spec fn matching(rows: Seq<CompanyView>, term: Option<Seq<char>>) -> Seq<CompanyView>
    decreases rows.len(),
{
    if rows.len() == 0 {
        Seq::empty()
    } else {
        matching(rows.drop_last(), term) + if matches_search(rows.last(), term) {
            seq![rows.last()]
        } else {
            Seq::empty()
        }
    }
}

/// The record with its creation time replaced.
pub open spec fn with_created_at(c: CompanyView, t: i64) -> CompanyView {
    CompanyView { created_at: t, ..c }
}

pub open spec fn min_nat(a: nat, b: nat) -> nat {
    if a <= b {
        a
    } else {
        b
    }
}

/// The rows from `offset` on, at most `per_page` of them.
pub open spec fn page_of(rows: Seq<CompanyView>, offset: nat, per_page: nat) -> Seq<CompanyView> {
    rows.subrange(min_nat(offset, rows.len()) as int, min_nat(offset + per_page, rows.len()) as int)
}

pub proof fn lemma_lookup_at(rows: Seq<CompanyView>, k: int)
    requires
        ids_unique(rows),
        0 <= k < rows.len(),
    ensures
        lookup(rows, rows[k].id) == Some(rows[k]),
{
    assert(has_id(rows, rows[k].id));
}

/// The rows from `offset` on, at most `per_page` of them, copied.
pub fn page_companies(rows: &Vec<Company>, offset: u64, per_page: u32) -> (r: Vec<Company>)
    ensures
        views(r@) == page_of(views(rows@), offset as nat, per_page as nat),
{
    let n = rows.len();
    let start: usize = if offset < n as u64 {
        offset as usize
    } else {
        n
    };
    let end: usize = if (n - start) as u64 > per_page as u64 {
        start + per_page as usize
    } else {
        n
    };
    let ghost all = views(rows@);
    assert(start == min_nat(offset as nat, all.len()));
    assert(end == min_nat((offset + per_page) as nat, all.len()));
    let mut out: Vec<Company> = Vec::new();
    let mut i: usize = start;
    while i < end
        invariant
            start <= i <= end <= n,
            n == rows@.len(),
            all == views(rows@),
            views(out@) == all.subrange(start as int, i as int),
        decreases end - i,
    {
        let ghost prev = out@;
        assert(all[i as int] == rows@[i as int]@);
        out.push(rows[i].duplicate());
        assert(views(out@) =~= views(prev).push(all[i as int]));
        assert(views(out@) =~= all.subrange(start as int, i + 1));
        i = i + 1;
    }
    out
}

/// The in-memory repository.
pub struct CompanyStore {
    rows: Vec<Company>,
}

impl View for CompanyStore {
    type V = Seq<CompanyView>;

    closed spec fn view(&self) -> Seq<CompanyView> {
        views(self.rows@)
    }
}

impl CompanyStore {
    pub open spec fn wf(&self) -> bool {
        ids_unique(self@)
    }

    pub fn new() -> (r: CompanyStore)
        ensures
            r@ == Seq::<CompanyView>::empty(),
            r.wf(),
    {
        let r = CompanyStore { rows: Vec::new() };
        assert(r@ =~= Seq::<CompanyView>::empty());
        r
    }

    pub fn len(&self) -> (r: usize)
        ensures
            r == self@.len(),
    {
        self.rows.len()
    }

    fn position(&self, id: u128) -> (r: Option<usize>)
        ensures
            r matches Some(i) ==> i < self@.len() && self@[i as int].id == id,
            r is None ==> !has_id(self@, id),
    {
        let mut i: usize = 0;
        while i < self.rows.len()
            invariant
                i <= self@.len(),
                self@.len() == self.rows@.len(),
                forall|j: int| 0 <= j < i ==> (#[trigger] self@[j]).id != id,
            decreases self.rows.len() - i,
        {
            assert(self@[i as int] == self.rows@[i as int]@);
            if self.rows[i].id == id {
                return Some(i);
            }
            i = i + 1;
        }
        None
    }

    /// The record with the given id, if any.
    pub fn get_company_by_id(&self, id: u128) -> (r: Option<Company>)
        requires
            self.wf(),
        ensures
            opt_company_view(r) == lookup(self@, id),
    {
        match self.position(id) {
            Some(i) => {
                proof {
                    lemma_lookup_at(self@, i as int);
                }
                assert(self@[i as int] == self.rows@[i as int]@);
                Some(self.rows[i].duplicate())
            },
            None => None,
        }
    }

    /// Whether a record other than `exclude` has this email.
    pub fn check_existing_company_email(&self, email: &str, exclude: Option<u128>) -> (r: bool)
        ensures
            r == email_taken(self@, email@, exclude),
    {
        let target = email.to_owned();
        let mut i: usize = 0;
        while i < self.rows.len()
            invariant
                i <= self@.len(),
                self@.len() == self.rows@.len(),
                target@ == email@,
                forall|j: int|
                    0 <= j < i ==> !((#[trigger] self@[j]).email == email@ && exclude != Some(
                        self@[j].id,
                    )),
            decreases self.rows.len() - i,
        {
            assert(self@[i as int] == self.rows@[i as int]@);
            let row = &self.rows[i];
            let excluded = match exclude {
                Some(x) => x == row.id,
                None => false,
            };
            if row.email == target && !excluded {
                return true;
            }
            i = i + 1;
        }
        false
    }

    /// Whether a record other than `exclude` has this code.
    pub fn check_existing_company_code(&self, code: &str, exclude: Option<u128>) -> (r: bool)
        ensures
            r == code_taken(self@, code@, exclude),
    {
        let target = code.to_owned();
        let mut i: usize = 0;
        while i < self.rows.len()
            invariant
                i <= self@.len(),
                self@.len() == self.rows@.len(),
                target@ == code@,
                forall|j: int|
                    0 <= j < i ==> !((#[trigger] self@[j]).code == code@ && exclude != Some(
                        self@[j].id,
                    )),
            decreases self.rows.len() - i,
        {
            assert(self@[i as int] == self.rows@[i as int]@);
            let row = &self.rows[i];
            let excluded = match exclude {
                Some(x) => x == row.id,
                None => false,
            };
            if row.code == target && !excluded {
                return true;
            }
            i = i + 1;
        }
        false
    }

    /// Adds a record; a record with the same id is refused.
    pub fn create_company(&mut self, c: Company) -> (r: Result<Company, StoreError>)
        requires
            old(self).wf(),
        ensures
            final(self).wf(),
            has_id(old(self)@, c.id) ==> r == Err::<Company, StoreError>(StoreError::DuplicateId)
                && final(self)@ == old(self)@,
            !has_id(old(self)@, c.id) ==> (r matches Ok(x) && x@ == c@ && final(self)@ == old(
                self,
            )@.push(c@)),
    {
        match self.position(c.id) {
            Some(_) => Err(StoreError::DuplicateId),
            None => {
                let stored = c.duplicate();
                self.rows.push(stored);
                assert(self@ =~= old(self)@.push(c@));
                assert forall|i: int, j: int|
                    0 <= i < self@.len() && 0 <= j < self@.len() && i != j implies #[trigger] self@[i].id
                        != #[trigger] self@[j].id by {
                    if i == self@.len() - 1 {
                        assert(old(self)@[j] == self@[j]);
                    } else if j == self@.len() - 1 {
                        assert(old(self)@[i] == self@[i]);
                    }
                }
                Ok(c)
            },
        }
    }

    /// Rewrites the mutable fields of the record that has the id of `c`: its
    /// id and creation time stay as stored. Gives back `c` as it was passed.
    pub fn update_company(&mut self, c: Company) -> (r: Result<Company, StoreError>)
        requires
            old(self).wf(),
        ensures
            final(self).wf(),
            !has_id(old(self)@, c.id) ==> r == Err::<Company, StoreError>(StoreError::NotFound)
                && final(self)@ == old(self)@,
            has_id(old(self)@, c.id) ==> (r matches Ok(x) && x@ == c@ && exists|i: int|
                0 <= i < old(self)@.len() && old(self)@[i].id == c.id && final(self)@ == old(
                    self,
                )@.update(i, with_created_at(c@, old(self)@[i].created_at))),
    {
        match self.position(c.id) {
            Some(i) => {
                assert(self@[i as int] == self.rows@[i as int]@);
                let mut kept = c.duplicate();
                kept.created_at = self.rows[i].created_at;
                let ghost row = kept@;
                self.rows.set(i, kept);
                assert(self@ =~= old(self)@.update(i as int, row));
                assert forall|a: int, b: int|
                    0 <= a < self@.len() && 0 <= b < self@.len() && a != b implies #[trigger] self@[a].id
                        != #[trigger] self@[b].id by {
                    assert(self@[a].id == old(self)@[a].id);
                    assert(self@[b].id == old(self)@[b].id);
                }
                Ok(c)
            },
            None => Err(StoreError::NotFound),
        }
    }

    /// Removes the record with the given id, if there is one.
    pub fn delete_company(&mut self, id: u128)
        requires
            old(self).wf(),
        ensures
            final(self).wf(),
            !has_id(old(self)@, id) ==> final(self)@ == old(self)@,
            has_id(old(self)@, id) ==> exists|i: int|
                0 <= i < old(self)@.len() && old(self)@[i].id == id && final(self)@ == old(
                    self,
                )@.remove(i),
    {
        match self.position(id) {
            Some(i) => {
                self.rows.remove(i);
                assert(self@ =~= old(self)@.remove(i as int));
                assert forall|a: int, b: int|
                    0 <= a < self@.len() && 0 <= b < self@.len() && a != b implies #[trigger] self@[a].id
                        != #[trigger] self@[b].id by {
                    let oa = if a < i { a } else { a + 1 };
                    let ob = if b < i { b } else { b + 1 };
                    assert(self@[a] == old(self)@[oa]);
                    assert(self@[b] == old(self)@[ob]);
                }
            },
            None => {},
        }
    }

    /// The number of records that pass the search filter.
    pub fn count_all_companies(&self, search: &Option<String>) -> (r: u64)
        ensures
            r == matching(self@, query_view_search(*search)).len(),
    {
        let ghost term = query_view_search(*search);
        let mut count: u64 = 0;
        let mut i: usize = 0;
        while i < self.rows.len()
            invariant
                i <= self@.len(),
                self@.len() == self.rows@.len(),
                term == query_view_search(*search),
                count == matching(self@.subrange(0, i as int), term).len(),
                count <= i,
            decreases self.rows.len() - i,
        {
            assert(self@.subrange(0, i + 1).drop_last() =~= self@.subrange(0, i as int));
            assert(self@.subrange(0, i + 1).last() == self@[i as int]);
            assert(self@[i as int] == self.rows@[i as int]@);
            if company_matches(&self.rows[i], search) {
                count = count + 1;
            }
            i = i + 1;
        }
        assert(self@.subrange(0, self@.len() as int) =~= self@);
        count
    }

    /// The records that pass the search filter, in store order.
    fn matching_companies(&self, search: &Option<String>) -> (r: Vec<Company>)
        ensures
            views(r@) == matching(self@, query_view_search(*search)),
    {
        let ghost term = query_view_search(*search);
        let mut out: Vec<Company> = Vec::new();
        let mut i: usize = 0;
        while i < self.rows.len()
            invariant
                i <= self@.len(),
                self@.len() == self.rows@.len(),
                term == query_view_search(*search),
                views(out@) == matching(self@.subrange(0, i as int), term),
            decreases self.rows.len() - i,
        {
            let ghost prev = out@;
            assert(self@.subrange(0, i + 1).drop_last() =~= self@.subrange(0, i as int));
            assert(self@.subrange(0, i + 1).last() == self@[i as int]);
            assert(self@[i as int] == self.rows@[i as int]@);
            if company_matches(&self.rows[i], search) {
                out.push(self.rows[i].duplicate());
                assert(views(out@) =~= views(prev).push(self@[i as int]));
            }
            assert(views(out@) =~= matching(self@.subrange(0, i + 1), term));
            i = i + 1;
        }
        assert(self@.subrange(0, self@.len() as int) =~= self@);
        out
    }

    /// One page of the records that pass the search filter, in the requested
    /// order (store order without one): from the `offset`-th on, at most
    /// `per_page` of them. Case is folded with `str::to_lowercase` and text is
    /// ordered by code point, where a database applies `ILIKE` and its own
    /// collation.
    pub fn find_all_companies(&self, q: &ListQuery) -> (r: Vec<Company>)
        ensures
            views(r@) == page_of(
                ordered(matching(self@, query_view_search(q.search)), q.sort),
                q.offset as nat,
                q.per_page as nat,
            ),
    {
        let matched = self.matching_companies(&q.search);
        let rows = match q.sort {
            Some(o) => sort_companies(matched, o),
            None => matched,
        };
        page_companies(&rows, q.offset, q.per_page)
    }
}

} // verus!
