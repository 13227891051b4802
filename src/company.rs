//! The company record, the create/update request and its validation, and the
//! use-case failures with their mapping onto the HTTP error model.

use vstd::prelude::*;
use crate::response::{opt_view, ResponseError};

verus! {

/// A company record. `id` is the 128-bit value of its UUID; `created_at` is
/// microseconds since the Unix epoch, UTC.
#[derive(Debug, Clone, PartialEq, Eq)]
pub struct Company {
    pub id: u128,
    pub name: String,
    pub code: String,
    pub email: String,
    pub phone_number: Option<String>,
    pub address: Option<String>,
    pub created_at: i64,
}

/// The mathematical value of a [`Company`].
pub struct CompanyView {
    pub id: u128,
    pub name: Seq<char>,
    pub code: Seq<char>,
    pub email: Seq<char>,
    pub phone_number: Option<Seq<char>>,
    pub address: Option<Seq<char>>,
    pub created_at: i64,
}

impl View for Company {
    type V = CompanyView;

    open spec fn view(&self) -> CompanyView {
        CompanyView {
            id: self.id,
            name: self.name@,
            code: self.code@,
            email: self.email@,
            phone_number: opt_view(self.phone_number),
            address: opt_view(self.address),
            created_at: self.created_at,
        }
    }
}

fn copy_opt_string(o: &Option<String>) -> (r: Option<String>)
    ensures
        opt_view(r) == opt_view(*o),
{
    match o {
        Some(s) => Some(s.clone()),
        None => None,
    }
}

impl Company {
    /// A field-by-field copy.
    pub fn duplicate(&self) -> (r: Company)
        ensures
            r@ == self@,
    {
        Company {
            id: self.id,
            name: self.name.clone(),
            code: self.code.clone(),
            email: self.email.clone(),
            phone_number: copy_opt_string(&self.phone_number),
            address: copy_opt_string(&self.address),
            created_at: self.created_at,
        }
    }
}

/// The body of a create or update request.
#[derive(Debug, Clone, PartialEq, Eq)]
pub struct ProcessCompanyRequest {
    pub name: String,
    pub email: String,
    pub code: String,
    pub phone_number: Option<String>,
    pub address: Option<String>,
}

/// Why a use-case operation failed.
#[derive(Debug, Clone, Copy, PartialEq, Eq, Structural)]
pub enum CompanyUsecaseError {
    EmailAlreadyExist,
    CodeAlreadyExist,
    NotFound,
    DatabaseError,
}

/// A page of records with the number of records that match the filter.
#[derive(Debug, Clone, PartialEq, Eq)]
pub struct ListCompanyResult {
    pub data: Vec<Company>,
    pub total_data: u64,
}

/// An optional field is acceptable when absent or non-empty.
pub open spec fn optional_field_ok(o: Option<Seq<char>>) -> bool {
    match o {
        Some(s) => s.len() > 0,
        None => true,
    }
}

/// The message of the first rule that a request breaks, checked in the order
/// name, email, code, phone number, address; `None` when it breaks none.
pub open spec fn first_invalid_field(
    name: Seq<char>,
    email: Seq<char>,
    code: Seq<char>,
    phone_number: Option<Seq<char>>,
    address: Option<Seq<char>>,
) -> Option<Seq<char>> {
    if name.len() == 0 {
        Some("Name is required"@)
    } else if email.len() == 0 {
        Some("Email is required"@)
    } else if code.len() == 0 {
        Some("Code is required"@)
    } else if !optional_field_ok(phone_number) {
        Some("Phone number is required"@)
    } else if !optional_field_ok(address) {
        Some("Address is required"@)
    } else {
        None
    }
}

pub open spec fn request_error(req: &ProcessCompanyRequest) -> Option<Seq<char>> {
    first_invalid_field(
        req.name@,
        req.email@,
        req.code@,
        opt_view(req.phone_number),
        opt_view(req.address),
    )
}

fn has_string_value(o: &Option<String>) -> (r: bool)
    ensures
        r == optional_field_ok(opt_view(*o)),
{
    match o {
        Some(s) => !s.as_str().is_empty(),
        None => true,
    }
}

/// Checks the required fields of a request before it reaches the use case.
pub fn validate_company_input(req: &ProcessCompanyRequest) -> (r: Result<(), ResponseError>)
    ensures
        request_error(req) is None <==> r is Ok,
        request_error(req) matches Some(m) ==> r matches Err(ResponseError::BadRequest(e)) && e@
            == m,
{
    if req.name.as_str().is_empty() {
        return Err(ResponseError::BadRequest("Name is required".to_owned()));
    }
    if req.email.as_str().is_empty() {
        return Err(ResponseError::BadRequest("Email is required".to_owned()));
    }
    if req.code.as_str().is_empty() {
        return Err(ResponseError::BadRequest("Code is required".to_owned()));
    }
    if !has_string_value(&req.phone_number) {
        return Err(ResponseError::BadRequest("Phone number is required".to_owned()));
    }
    if !has_string_value(&req.address) {
        return Err(ResponseError::BadRequest("Address is required".to_owned()));
    }
    Ok(())
}

/// The HTTP error that a use-case failure is reported as.
pub open spec fn usecase_error_response(err: CompanyUsecaseError, r: ResponseError) -> bool {
    match err {
            CompanyUsecaseError::EmailAlreadyExist => r matches ResponseError::BadRequest(m) && m@
                == "email already exist"@,
            CompanyUsecaseError::CodeAlreadyExist => r matches ResponseError::BadRequest(m) && m@
                == "code already exist"@,
            CompanyUsecaseError::NotFound => r matches ResponseError::NotFound(m) && m@
                == "data not found"@,
            CompanyUsecaseError::DatabaseError => r is DatabaseError,
    }
}

/// Maps a use-case failure onto the HTTP error model.
pub fn map_usecase_company_error(err: CompanyUsecaseError) -> (r: ResponseError)
    ensures
        usecase_error_response(err, r),
{
    match err {
        CompanyUsecaseError::EmailAlreadyExist => ResponseError::BadRequest(
            "email already exist".to_owned(),
        ),
        CompanyUsecaseError::CodeAlreadyExist => ResponseError::BadRequest(
            "code already exist".to_owned(),
        ),
        CompanyUsecaseError::NotFound => ResponseError::NotFound("data not found".to_owned()),
        CompanyUsecaseError::DatabaseError => ResponseError::DatabaseError,
    }
}

} // verus!
