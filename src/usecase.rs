//! The business rules above the repository: email and code stay unique, and
//! a record must exist before it is updated or deleted.

use vstd::prelude::*;
use crate::company::{Company, CompanyUsecaseError, CompanyView, ListCompanyResult};
use crate::response::opt_view;
use crate::query::{ListQuery, query_view_search};
use crate::store::{
    CompanyStore, code_taken, email_taken, has_id, ids_unique, lookup, matching,
    opt_company_view, page_of, views,
};

verus! {

/// Relies on `uuid::Uuid::new_v4` and `Uuid::as_u128`: a random UUID, given
/// as its 128-bit big-endian value, with version 4 and the RFC variant set.
#[verifier::external_body]
fn new_company_id() -> (r: u128)
    ensures
        (r >> 76u128) & 0xfu128 == 4,
        (r >> 62u128) & 0x3u128 == 2,
{
    uuid::Uuid::new_v4().as_u128()
}

/// Relies on chrono's `From<SystemTime> for DateTime<Utc>` and
/// `DateTime::timestamp_micros`: the system time in microseconds since the
/// Unix epoch, negative for a clock set before it. Nothing is promised of its
/// value.
#[verifier::external_body]
fn now_micros() -> (r: i64) {
    chrono::DateTime::<chrono::Utc>::from(std::time::SystemTime::now()).timestamp_micros()
}

/// A new record under a fresh random id, stamped with the current time.
pub fn new_company(
    name: String,
    email: String,
    code: String,
    phone_number: Option<String>,
    address: Option<String>,
) -> (r: Company)
    ensures
        r@ == new_record(
            r.id,
            r.created_at,
            name@,
            email@,
            code@,
            opt_view(phone_number),
            opt_view(address),
        ),
        (r.id >> 76u128) & 0xfu128 == 4,
{
    let id = new_company_id();
    let created_at = now_micros();
    Company { id, name, code, email, phone_number, address, created_at }
}

pub open spec fn emails_unique(rows: Seq<CompanyView>) -> bool {
    forall|i: int, j: int|
        0 <= i < rows.len() && 0 <= j < rows.len() && i != j ==> #[trigger] rows[i].email
            != #[trigger] rows[j].email
}

pub open spec fn codes_unique(rows: Seq<CompanyView>) -> bool {
    forall|i: int, j: int|
        0 <= i < rows.len() && 0 <= j < rows.len() && i != j ==> #[trigger] rows[i].code
            != #[trigger] rows[j].code
}

/// The invariant of the stored records: ids, emails and codes are each unique.
pub open spec fn records_ok(rows: Seq<CompanyView>) -> bool {
    ids_unique(rows) && emails_unique(rows) && codes_unique(rows)
}

/// The record that a create with these values stores.
pub open spec fn new_record(
    id: u128,
    created_at: i64,
    name: Seq<char>,
    email: Seq<char>,
    code: Seq<char>,
    phone_number: Option<Seq<char>>,
    address: Option<Seq<char>>,
) -> CompanyView {
    CompanyView { id, name, code, email, phone_number, address, created_at }
}

/// The verdict of the create rules on the answers of the uniqueness probes:
/// a taken email wins over a taken code.
pub open spec fn spec_creation_check(email_exists: bool, code_exists: bool) -> Result<
    (),
    CompanyUsecaseError,
> {
    if email_exists {
        Err(CompanyUsecaseError::EmailAlreadyExist)
    } else if code_exists {
        Err(CompanyUsecaseError::CodeAlreadyExist)
    } else {
        Ok(())
    }
}

/// The verdict of the update rules: email, then code, then existence.
pub open spec fn spec_update_check(email_exists: bool, code_exists: bool, found: bool) -> Result<
    (),
    CompanyUsecaseError,
> {
    if email_exists {
        Err(CompanyUsecaseError::EmailAlreadyExist)
    } else if code_exists {
        Err(CompanyUsecaseError::CodeAlreadyExist)
    } else if !found {
        Err(CompanyUsecaseError::NotFound)
    } else {
        Ok(())
    }
}

/// Applies the create rules to the answers of the uniqueness probes.
pub fn creation_check(email_exists: bool, code_exists: bool) -> (r: Result<(), CompanyUsecaseError>)
    ensures
        r == spec_creation_check(email_exists, code_exists),
{
    if email_exists {
        return Err(CompanyUsecaseError::EmailAlreadyExist);
    }
    if code_exists {
        return Err(CompanyUsecaseError::CodeAlreadyExist);
    }
    Ok(())
}

/// Applies the update rules to the answers of the probes.
pub fn update_check(email_exists: bool, code_exists: bool, found: bool) -> (r: Result<
    (),
    CompanyUsecaseError,
>)
    ensures
        r == spec_update_check(email_exists, code_exists, found),
{
    match creation_check(email_exists, code_exists) {
        Err(e) => Err(e),
        Ok(()) => if found {
            Ok(())
        } else {
            Err(CompanyUsecaseError::NotFound)
        },
    }
}

/// The record that an update makes of the stored one: every field from the
/// request, the id and the creation time from the stored record.
pub fn apply_update(
    existing: &Company,
    name: String,
    email: String,
    code: String,
    phone_number: Option<String>,
    address: Option<String>,
) -> (r: Company)
    ensures
        r@ == new_record(
            existing.id,
            existing.created_at,
            name@,
            email@,
            code@,
            opt_view(phone_number),
            opt_view(address),
        ),
{
    Company { id: existing.id, name, code, email, phone_number, address, created_at: existing.created_at }
}

/// The delete rule on the answer of the existence probe.
pub fn deletion_check(found: bool) -> (r: Result<(), CompanyUsecaseError>)
    ensures
        found ==> r is Ok,
        !found ==> r == Err::<(), CompanyUsecaseError>(CompanyUsecaseError::NotFound),
{
    if found {
        Ok(())
    } else {
        Err(CompanyUsecaseError::NotFound)
    }
}

/// The use cases over a repository.
pub struct CompanyUsecase {
    repo: CompanyStore,
}

impl View for CompanyUsecase {
    type V = Seq<CompanyView>;

    closed spec fn view(&self) -> Seq<CompanyView> {
        self.repo@
    }
}

impl CompanyUsecase {
    pub open spec fn wf(&self) -> bool {
        records_ok(self@)
    }

    pub fn new(repo: CompanyStore) -> (r: CompanyUsecase)
        requires
            records_ok(repo@),
        ensures
            r@ == repo@,
            r.wf(),
    {
        CompanyUsecase { repo }
    }

    /// The stored records, in store order.
    pub fn repository(&self) -> (r: &CompanyStore)
        ensures
            r@ == self@,
    {
        &self.repo
    }

    /// The record with the given id, if any.
    pub fn get_company_by_id(&self, id: u128) -> (r: Option<Company>)
        requires
            self.wf(),
        ensures
            opt_company_view(r) == lookup(self@, id),
    {
        self.repo.get_company_by_id(id)
    }

    /// Creates a record with the given id and creation time, after checking
    /// that no record has the email, then that none has the code.
    pub fn create_company_with(
        &mut self,
        id: u128,
        created_at: i64,
        name: String,
        email: String,
        code: String,
        phone_number: Option<String>,
        address: Option<String>,
    ) -> (r: Result<Company, CompanyUsecaseError>)
        requires
            old(self).wf(),
        ensures
            final(self).wf(),
            email_taken(old(self)@, email@, None) ==> r == Err::<Company, CompanyUsecaseError>(
                CompanyUsecaseError::EmailAlreadyExist,
            ),
            !email_taken(old(self)@, email@, None) && code_taken(old(self)@, code@, None) ==> r
                == Err::<Company, CompanyUsecaseError>(CompanyUsecaseError::CodeAlreadyExist),
            !email_taken(old(self)@, email@, None) && !code_taken(old(self)@, code@, None)
                && has_id(old(self)@, id) ==> r == Err::<Company, CompanyUsecaseError>(
                CompanyUsecaseError::DatabaseError,
            ),
            !email_taken(old(self)@, email@, None) && !code_taken(old(self)@, code@, None)
                && !has_id(old(self)@, id) ==> r is Ok,
            r is Err ==> final(self)@ == old(self)@,
            r matches Ok(c) ==> c@ == new_record(
                id,
                created_at,
                name@,
                email@,
                code@,
                opt_view(phone_number),
                opt_view(address),
            ) && final(self)@ == old(self)@.push(c@),
    {
        let email_exists = self.repo.check_existing_company_email(email.as_str(), None);
        let code_exists = if email_exists {
            false
        } else {
            self.repo.check_existing_company_code(code.as_str(), None)
        };
        match creation_check(email_exists, code_exists) {
            Err(e) => {
                return Err(e);
            },
            Ok(()) => {},
        }
        let company = Company { id, name, code, email, phone_number, address, created_at };
        let ghost added = company@;
        match self.repo.create_company(company) {
            Ok(c) => {
                proof {
                    let rows = self@;
                    let n = old(self)@.len();
                    assert(rows == old(self)@.push(added));
                    assert forall|i: int, j: int|
                        0 <= i < rows.len() && 0 <= j < rows.len() && i != j implies #[trigger] rows[i].email
                            != #[trigger] rows[j].email by {
                        if i == n {
                            assert(old(self)@[j] == rows[j]);
                        } else if j == n {
                            assert(old(self)@[i] == rows[i]);
                        } else {
                            assert(old(self)@[i] == rows[i] && old(self)@[j] == rows[j]);
                        }
                    }
                    assert forall|i: int, j: int|
                        0 <= i < rows.len() && 0 <= j < rows.len() && i != j implies #[trigger] rows[i].code
                            != #[trigger] rows[j].code by {
                        if i == n {
                            assert(old(self)@[j] == rows[j]);
                        } else if j == n {
                            assert(old(self)@[i] == rows[i]);
                        } else {
                            assert(old(self)@[i] == rows[i] && old(self)@[j] == rows[j]);
                        }
                    }
                }
                Ok(c)
            },
            Err(_) => Err(CompanyUsecaseError::DatabaseError),
        }
    }

    /// Creates a record under a fresh random id, stamped with the current
    /// time, after the same checks as [`Self::create_company_with`].
    pub fn create_company(
        &mut self,
        name: String,
        email: String,
        code: String,
        phone_number: Option<String>,
        address: Option<String>,
    ) -> (r: Result<Company, CompanyUsecaseError>)
        requires
            old(self).wf(),
        ensures
            final(self).wf(),
            email_taken(old(self)@, email@, None) ==> r == Err::<Company, CompanyUsecaseError>(
                CompanyUsecaseError::EmailAlreadyExist,
            ),
            !email_taken(old(self)@, email@, None) && code_taken(old(self)@, code@, None) ==> r
                == Err::<Company, CompanyUsecaseError>(CompanyUsecaseError::CodeAlreadyExist),
            !email_taken(old(self)@, email@, None) && !code_taken(old(self)@, code@, None) ==> (r is Ok
                || r == Err::<Company, CompanyUsecaseError>(CompanyUsecaseError::DatabaseError)),
            old(self)@.len() == 0 ==> r is Ok,
            r == Err::<Company, CompanyUsecaseError>(CompanyUsecaseError::EmailAlreadyExist)
                ==> email_taken(old(self)@, email@, None),
            r == Err::<Company, CompanyUsecaseError>(CompanyUsecaseError::CodeAlreadyExist) ==> (
            !email_taken(old(self)@, email@, None) && code_taken(old(self)@, code@, None)),
            r == Err::<Company, CompanyUsecaseError>(CompanyUsecaseError::DatabaseError) ==> (
            !email_taken(old(self)@, email@, None) && !code_taken(old(self)@, code@, None)),
            r is Err ==> final(self)@ == old(self)@,
            r matches Ok(c) ==> c@ == new_record(
                c.id,
                c.created_at,
                name@,
                email@,
                code@,
                opt_view(phone_number),
                opt_view(address),
            ) && !has_id(old(self)@, c.id) && final(self)@ == old(self)@.push(
                c@,
            ),
    {
        let id = new_company_id();
        let created_at = now_micros();
        self.create_company_with(id, created_at, name, email, code, phone_number, address)
    }

    /// Rewrites every field of the record `id` but its id and creation time,
    /// after checking that no other record has the email, then that none has
    /// the code, then that the record exists.
    pub fn update_company(
        &mut self,
        id: u128,
        name: String,
        email: String,
        code: String,
        phone_number: Option<String>,
        address: Option<String>,
    ) -> (r: Result<Company, CompanyUsecaseError>)
        requires
            old(self).wf(),
        ensures
            final(self).wf(),
            r matches Err(e) ==> Err::<(), CompanyUsecaseError>(e) == spec_update_check(
                email_taken(old(self)@, email@, Some(id)),
                code_taken(old(self)@, code@, Some(id)),
                has_id(old(self)@, id),
            ) && final(self)@ == old(self)@,
            r is Ok <==> spec_update_check(
                email_taken(old(self)@, email@, Some(id)),
                code_taken(old(self)@, code@, Some(id)),
                has_id(old(self)@, id),
            ) is Ok,
            r matches Ok(c) ==> exists|i: int|
                0 <= i < old(self)@.len() && old(self)@[i].id == id && c@ == new_record(
                    id,
                    old(self)@[i].created_at,
                    name@,
                    email@,
                    code@,
                    opt_view(phone_number),
                    opt_view(address),
                ) && final(self)@ == old(self)@.update(i, c@),
    {
        let email_exists = self.repo.check_existing_company_email(email.as_str(), Some(id));
        let code_exists = if email_exists {
            false
        } else {
            self.repo.check_existing_company_code(code.as_str(), Some(id))
        };
        let existing = if email_exists || code_exists {
            None
        } else {
            self.repo.get_company_by_id(id)
        };
        let found = match &existing {
            Some(_) => true,
            None => false,
        };
        proof {
            if has_id(old(self)@, id) {
                let k = choose|k: int| 0 <= k < old(self)@.len() && (#[trigger] old(self)@[k]).id == id;
                crate::store::lemma_lookup_at(old(self)@, k);
            }
        }
        match update_check(email_exists, code_exists, found) {
            Err(e) => {
                return Err(e);
            },
            Ok(()) => {},
        }
        let company = match existing {
            Some(c) => apply_update(&c, name, email, code, phone_number, address),
            None => {
                return Err(CompanyUsecaseError::NotFound);
            },
        };
        let ghost changed = company@;
        match self.repo.update_company(company) {
            Ok(c) => {
                proof {
                    let rows = self@;
                    let old_rows = old(self)@;
                    let i = choose|i: int|
                        0 <= i < old_rows.len() && old_rows[i].id == id && rows == old_rows.update(
                            i,
                            changed,
                        );
                    crate::store::lemma_lookup_at(old_rows, i);
                    assert forall|a: int, b: int|
                        0 <= a < rows.len() && 0 <= b < rows.len() && a != b implies #[trigger] rows[a].email
                            != #[trigger] rows[b].email by {
                        if a == i {
                            assert(old_rows[b] == rows[b]);
                            assert(old_rows[b].id != id);
                        } else if b == i {
                            assert(old_rows[a] == rows[a]);
                            assert(old_rows[a].id != id);
                        } else {
                            assert(old_rows[a] == rows[a] && old_rows[b] == rows[b]);
                        }
                    }
                    assert forall|a: int, b: int|
                        0 <= a < rows.len() && 0 <= b < rows.len() && a != b implies #[trigger] rows[a].code
                            != #[trigger] rows[b].code by {
                        if a == i {
                            assert(old_rows[b] == rows[b]);
                            assert(old_rows[b].id != id);
                        } else if b == i {
                            assert(old_rows[a] == rows[a]);
                            assert(old_rows[a].id != id);
                        } else {
                            assert(old_rows[a] == rows[a] && old_rows[b] == rows[b]);
                        }
                    }
                }
                Ok(c)
            },
            Err(_) => Err(CompanyUsecaseError::DatabaseError),
        }
    }

    /// Deletes the record `id` once it is known to exist.
    pub fn delete_company(&mut self, id: u128) -> (r: Result<(), CompanyUsecaseError>)
        requires
            old(self).wf(),
        ensures
            final(self).wf(),
            !has_id(old(self)@, id) ==> r == Err::<(), CompanyUsecaseError>(
                CompanyUsecaseError::NotFound,
            ) && final(self)@ == old(self)@,
            has_id(old(self)@, id) ==> r is Ok && exists|i: int|
                0 <= i < old(self)@.len() && old(self)@[i].id == id && final(self)@ == old(
                    self,
                )@.remove(i),
    {
        let existing = self.repo.get_company_by_id(id);
        let found = match existing {
            Some(_) => true,
            None => false,
        };
        match deletion_check(found) {
            Err(e) => Err(e),
            Ok(()) => {
                self.repo.delete_company(id);
                proof {
                    let rows = self@;
                    let old_rows = old(self)@;
                    let i = choose|i: int|
                        0 <= i < old_rows.len() && old_rows[i].id == id && rows == old_rows.remove(i);
                    assert forall|a: int, b: int|
                        0 <= a < rows.len() && 0 <= b < rows.len() && a != b implies #[trigger] rows[a].email
                            != #[trigger] rows[b].email && rows[a].code != rows[b].code by {
                        let oa = if a < i { a } else { a + 1 };
                        let ob = if b < i { b } else { b + 1 };
                        assert(rows[a] == old_rows[oa]);
                        assert(rows[b] == old_rows[ob]);
                    }
                }
                Ok(())
            },
        }
    }

    /// One page of the records that pass the search filter, with the number
    /// of records that pass it.
    pub fn list_company(&self, q: &ListQuery) -> (r: Result<ListCompanyResult, CompanyUsecaseError>)
        ensures
            r matches Ok(l) && views(l.data@) == page_of(
                crate::order::ordered(matching(self@, query_view_search(q.search)), q.sort),
                q.offset as nat,
                q.per_page as nat,
            ) && l.total_data == matching(self@, query_view_search(q.search)).len(),
    {
        let total_data = self.repo.count_all_companies(&q.search);
        let data = self.repo.find_all_companies(q);
        Ok(ListCompanyResult { data, total_data })
    }
}

} // verus!
