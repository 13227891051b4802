//! The success envelope: `{message, http_code, data?, meta?}`.

use vstd::prelude::*;
use crate::query::{spec_total_page, total_page};
use crate::response::{STATUS_OK};

verus! {

/// The pagination metadata of a listing.
#[derive(Debug, Clone, Copy, PartialEq, Eq, Structural)]
pub struct PaginationMeta {
    pub page: u32,
    pub per_page: u32,
    pub total_data: u64,
    pub total_page: u64,
}

/// The JSON body of a success response.
#[derive(Debug)]
pub struct ResponseSuccessBody<T> {
    pub message: String,
    pub http_code: u16,
    pub data: Option<T>,
    pub meta: Option<PaginationMeta>,
}

/// A success response: a status with an optional payload, a bare status, or
/// a page of data (page, page size, total rows, data).
#[derive(Debug)]
pub enum ResponseSuccess<T> {
    Object(u16, Option<T>),
    NoData(u16),
    Pagination(u32, u32, u64, Option<T>),
}

/// The metadata of page `page` of `total_data` rows at `per_page` a page.
pub open spec fn meta_of(page: u32, per_page: u32, total_data: u64) -> PaginationMeta {
    PaginationMeta {
        page,
        per_page,
        total_data,
        total_page: spec_total_page(total_data as nat, per_page as nat) as u64,
    }
}

impl<T> ResponseSuccessBody<T> {
    /// A plain success body with the given status.
    pub fn success(status: u16, data: Option<T>) -> (r: ResponseSuccessBody<T>)
        ensures
            r.message@ == "success"@,
            r.http_code == status,
            r.data == data,
            r.meta is None,
    {
        ResponseSuccessBody { message: "success".to_owned(), http_code: status, data, meta: None }
    }

    /// A `200` body that carries one page and its pagination metadata.
    pub fn paginated(page: u32, per_page: u32, total_data: u64, data: Option<T>) -> (r:
        ResponseSuccessBody<T>)
        requires
            per_page > 0,
        ensures
            r.message@ == "success"@,
            r.http_code == STATUS_OK,
            r.data == data,
            r.meta == Some(meta_of(page, per_page, total_data)),
    {
        let pages = total_page(total_data, per_page);
        ResponseSuccessBody {
            message: "success".to_owned(),
            http_code: STATUS_OK,
            data,
            meta: Some(PaginationMeta { page, per_page, total_data, total_page: pages }),
        }
    }
}

impl<T> ResponseSuccess<T> {
    pub open spec fn spec_status(&self) -> u16 {
        match self {
            ResponseSuccess::Object(s, _) => *s,
            ResponseSuccess::NoData(s) => *s,
            ResponseSuccess::Pagination(..) => STATUS_OK,
        }
    }

    /// The status and the body that the response is sent with.
    pub fn into_body(self) -> (r: (u16, ResponseSuccessBody<T>))
        requires
            self matches ResponseSuccess::Pagination(_, per_page, _, _) ==> per_page > 0,
        ensures
            r.0 == self.spec_status(),
            r.1.http_code == r.0,
            r.1.message@ == "success"@,
            match self {
                ResponseSuccess::Object(_, d) => r.1.data == d && r.1.meta is None,
                ResponseSuccess::NoData(_) => r.1.data is None && r.1.meta is None,
                ResponseSuccess::Pagination(p, pp, t, d) => r.1.data == d && r.1.meta == Some(
                    meta_of(p, pp, t),
                ),
            },
    {
        match self {
            ResponseSuccess::Object(s, d) => (s, ResponseSuccessBody::success(s, d)),
            ResponseSuccess::NoData(s) => (s, ResponseSuccessBody::success(s, None)),
            ResponseSuccess::Pagination(p, pp, t, d) => (
                STATUS_OK,
                ResponseSuccessBody::paginated(p, pp, t, d),
            ),
        }
    }
}

} // verus!
