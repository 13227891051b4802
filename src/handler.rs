//! The request handlers without their HTTP plumbing: validation, the use
//! case, the mapping of failures, and the envelope of the answer.

use vstd::prelude::*;
use crate::company::{
    Company, CompanyUsecaseError, ProcessCompanyRequest, map_usecase_company_error, request_error,
    usecase_error_response, validate_company_input,
};
use crate::query::{
    PaginationRequest, normalize_pagination, pagination_error, request_ok, requested_sort,
};
use crate::response::{STATUS_CREATED, STATUS_OK, ResponseError, opt_view};
use crate::store::{email_taken, code_taken, has_id, matching, page_of, views};
use crate::success::ResponseSuccess;
use crate::usecase::{CompanyUsecase, new_record, spec_update_check};

verus! {

/// Handles `POST /company`: a valid request creates a record, answered with
/// `201` and the record.
pub fn create_company_handler(usecase: &mut CompanyUsecase, req: ProcessCompanyRequest) -> (r:
    Result<ResponseSuccess<Company>, ResponseError>)
    requires
        old(usecase).wf(),
    ensures
        final(usecase).wf(),
        r is Err ==> final(usecase)@ == old(usecase)@,
        request_error(&req) matches Some(m) ==> (r matches Err(ResponseError::BadRequest(e))
            && e@ == m),
        request_error(&req) is None && email_taken(old(usecase)@, req.email@, None) ==> (
        r matches Err(e) && usecase_error_response(CompanyUsecaseError::EmailAlreadyExist, e)),
        request_error(&req) is None && !email_taken(old(usecase)@, req.email@, None) && code_taken(
            old(usecase)@,
            req.code@,
            None,
        ) ==> (r matches Err(e) && usecase_error_response(CompanyUsecaseError::CodeAlreadyExist, e)),
        request_error(&req) is None && !email_taken(old(usecase)@, req.email@, None) && !code_taken(
            old(usecase)@,
            req.code@,
            None,
        ) ==> (r is Ok || r == Err::<ResponseSuccess<Company>, ResponseError>(
            ResponseError::DatabaseError,
        )),
        request_error(&req) is None && old(usecase)@.len() == 0 ==> r is Ok,
        request_error(&req) is None && (r matches Err(ResponseError::BadRequest(m)) && m@
            == "email already exist"@) ==> email_taken(old(usecase)@, req.email@, None),
        request_error(&req) is None && (r matches Err(ResponseError::BadRequest(m)) && m@
            == "code already exist"@) ==> !email_taken(old(usecase)@, req.email@, None) && code_taken(
            old(usecase)@,
            req.code@,
            None,
        ),
        r == Err::<ResponseSuccess<Company>, ResponseError>(ResponseError::DatabaseError) ==> (
        request_error(&req) is None && !email_taken(old(usecase)@, req.email@, None) && !code_taken(
            old(usecase)@,
            req.code@,
            None,
        )),
        r matches Ok(s) ==> (s matches ResponseSuccess::Object(status, Some(c)) && status
            == STATUS_CREATED && c@ == new_record(
            c.id,
            c.created_at,
            req.name@,
            req.email@,
            req.code@,
            opt_view(req.phone_number),
            opt_view(req.address),
        ) && !has_id(old(usecase)@, c.id) && final(usecase)@ == old(usecase)@.push(c@)),
{
    proof {
        reveal_strlit("email already exist");
        reveal_strlit("code already exist");
        assert("email already exist"@ != "code already exist"@) by {
            assert("email already exist"@[0] != "code already exist"@[0]);
        }
    }
    match validate_company_input(&req) {
        Err(e) => {
            return Err(e);
        },
        Ok(()) => {},
    }
    match usecase.create_company(req.name, req.email, req.code, req.phone_number, req.address) {
        Ok(c) => Ok(ResponseSuccess::Object(STATUS_CREATED, Some(c))),
        Err(e) => Err(map_usecase_company_error(e)),
    }
}

/// Handles `PUT /company/:id`: a valid request rewrites the record, answered
/// with `201` and the record.
pub fn update_company_handler(usecase: &mut CompanyUsecase, id: u128, req: ProcessCompanyRequest) -> (r:
    Result<ResponseSuccess<Company>, ResponseError>)
    requires
        old(usecase).wf(),
    ensures
        final(usecase).wf(),
        r is Err ==> final(usecase)@ == old(usecase)@,
        request_error(&req) matches Some(m) ==> (r matches Err(ResponseError::BadRequest(e))
            && e@ == m),
        request_error(&req) is None ==> match spec_update_check(
            email_taken(old(usecase)@, req.email@, Some(id)),
            code_taken(old(usecase)@, req.code@, Some(id)),
            has_id(old(usecase)@, id),
        ) {
            Err(u) => r matches Err(e) && usecase_error_response(u, e),
            Ok(()) => r matches Ok(ResponseSuccess::Object(status, Some(c))) && status
                == STATUS_CREATED && exists|i: int|
                0 <= i < old(usecase)@.len() && old(usecase)@[i].id == id && c@ == new_record(
                    id,
                    old(usecase)@[i].created_at,
                    req.name@,
                    req.email@,
                    req.code@,
                    opt_view(req.phone_number),
                    opt_view(req.address),
                ) && final(usecase)@ == old(usecase)@.update(i, c@),
        },
{
    match validate_company_input(&req) {
        Err(e) => {
            return Err(e);
        },
        Ok(()) => {},
    }
    match usecase.update_company(id, req.name, req.email, req.code, req.phone_number, req.address) {
        Ok(c) => Ok(ResponseSuccess::Object(STATUS_CREATED, Some(c))),
        Err(e) => Err(map_usecase_company_error(e)),
    }
}

/// Handles `DELETE /company/:id`: `200` with no data, or `404`.
pub fn delete_company_handler(usecase: &mut CompanyUsecase, id: u128) -> (r: Result<
    ResponseSuccess<()>,
    ResponseError,
>)
    requires
        old(usecase).wf(),
    ensures
        final(usecase).wf(),
        !has_id(old(usecase)@, id) ==> (r matches Err(e) && usecase_error_response(
            CompanyUsecaseError::NotFound,
            e,
        )) && final(usecase)@ == old(usecase)@,
        has_id(old(usecase)@, id) ==> (r matches Ok(ResponseSuccess::NoData(s)) && s == STATUS_OK)
            && exists|i: int|
            0 <= i < old(usecase)@.len() && old(usecase)@[i].id == id && final(usecase)@ == old(
                usecase,
            )@.remove(i),
{
    match usecase.delete_company(id) {
        Ok(()) => Ok(ResponseSuccess::NoData(STATUS_OK)),
        Err(e) => Err(map_usecase_company_error(e)),
    }
}

/// Handles `GET /company`: one page of the records that pass the search, in
/// the pagination envelope.
pub fn get_companies_handler(usecase: &CompanyUsecase, q: &PaginationRequest) -> (r: Result<
    ResponseSuccess<Vec<Company>>,
    ResponseError,
>)
    ensures
        r is Ok <==> request_ok(*q),
        !request_ok(*q) ==> (r matches Err(ResponseError::BadRequest(m)) && m@ == pagination_error(
            *q,
        )),
        r matches Ok(ResponseSuccess::Pagination(page, per_page, total, Some(data))) ==> {
            let rows = matching(usecase@, crate::query::search_term(q.search));
            &&& page == crate::query::page_or_default(q.page)
            &&& per_page == crate::query::page_or_default(q.per_page)
            &&& total == rows.len()
            &&& views(data@) == page_of(
                crate::order::ordered(rows, requested_sort(*q)),
                ((page - 1) * per_page) as nat,
                per_page as nat,
            )
        },
        r matches Ok(s) ==> s is Pagination && (s matches ResponseSuccess::Pagination(
            _,
            per_page,
            _,
            d,
        ) && per_page > 0 && d is Some),
{
    let l = match normalize_pagination(q) {
        Ok(l) => l,
        Err(e) => {
            return Err(e);
        },
    };
    match usecase.list_company(&l) {
        Ok(res) => Ok(ResponseSuccess::Pagination(l.page, l.per_page, res.total_data, Some(res.data))),
        Err(e) => Err(map_usecase_company_error(e)),
    }
}

} // verus!
