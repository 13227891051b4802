//! The error and success envelopes of the HTTP surface.

use vstd::prelude::*;

verus! {

pub const STATUS_OK: u16 = 200;

pub const STATUS_CREATED: u16 = 201;

pub const STATUS_BAD_REQUEST: u16 = 400;

pub const STATUS_UNAUTHORIZED: u16 = 401;

pub const STATUS_NOT_FOUND: u16 = 404;

pub const STATUS_INTERNAL_SERVER_ERROR: u16 = 500;

/// The JSON body of an error response: `{status, message, detail?}`.
#[derive(Debug, PartialEq, Eq)]
pub struct ResponseErrorBody {
    pub status: u16,
    pub message: String,
    pub detail: Option<String>,
}

/// Every failure that the HTTP surface can report.
#[derive(Debug, PartialEq, Eq)]
pub enum ResponseError {
    BadRequest(String),
    NotFound(String),
    DatabaseError,
    Unauthorized,
    InvalidToken,
    InternalServerError,
}

pub open spec fn opt_view(o: Option<String>) -> Option<Seq<char>> {
    match o {
        Some(s) => Some(s@),
        None => None,
    }
}

impl ResponseError {
    /// The HTTP status that the error is reported with.
    pub open spec fn spec_status(&self) -> u16 {
        match self {
            ResponseError::BadRequest(_) => STATUS_BAD_REQUEST,
            ResponseError::NotFound(_) => STATUS_NOT_FOUND,
            ResponseError::DatabaseError => STATUS_INTERNAL_SERVER_ERROR,
            ResponseError::Unauthorized => STATUS_UNAUTHORIZED,
            ResponseError::InvalidToken => STATUS_UNAUTHORIZED,
            ResponseError::InternalServerError => STATUS_INTERNAL_SERVER_ERROR,
        }
    }

    /// The `message` of the error body.
    pub open spec fn spec_message(&self) -> Seq<char> {
        match self {
            ResponseError::BadRequest(m) => m@,
            ResponseError::NotFound(m) => m@,
            ResponseError::DatabaseError => "internal server error"@,
            ResponseError::Unauthorized => "unauthorized"@,
            ResponseError::InvalidToken => "invalid token"@,
            ResponseError::InternalServerError => "internal server error"@,
        }
    }

    /// The `detail` of the error body: only a storage failure carries one.
    pub open spec fn spec_detail(&self) -> Option<Seq<char>> {
        match self {
            ResponseError::DatabaseError => Some("critical storage error"@),
            _ => None,
        }
    }

    /// The one-line description used in logs.
    pub open spec fn spec_describe(&self) -> Seq<char> {
        match self {
            ResponseError::BadRequest(m) => "warning_bad_request: "@ + m@,
            ResponseError::NotFound(m) => "warning_not_found: "@ + m@,
            ResponseError::DatabaseError => "error_storage"@,
            ResponseError::Unauthorized => "unauthorized_user"@,
            ResponseError::InvalidToken => "invalid_token"@,
            ResponseError::InternalServerError => "error_server"@,
        }
    }

    pub fn status(&self) -> (r: u16)
        ensures
            r == self.spec_status(),
    {
        match self {
            ResponseError::BadRequest(_) => STATUS_BAD_REQUEST,
            ResponseError::NotFound(_) => STATUS_NOT_FOUND,
            ResponseError::DatabaseError => STATUS_INTERNAL_SERVER_ERROR,
            ResponseError::Unauthorized => STATUS_UNAUTHORIZED,
            ResponseError::InvalidToken => STATUS_UNAUTHORIZED,
            ResponseError::InternalServerError => STATUS_INTERNAL_SERVER_ERROR,
        }
    }

    /// The body that the error is reported with.
    pub fn into_body(self) -> (r: ResponseErrorBody)
        ensures
            r.status == self.spec_status(),
            r.message@ == self.spec_message(),
            opt_view(r.detail) == self.spec_detail(),
    {
        let status = self.status();
        match self {
            ResponseError::BadRequest(m) => ResponseErrorBody { status, message: m, detail: None },
            ResponseError::NotFound(m) => ResponseErrorBody { status, message: m, detail: None },
            ResponseError::DatabaseError => ResponseErrorBody {
                status,
                message: "internal server error".to_owned(),
                detail: Some("critical storage error".to_owned()),
            },
            ResponseError::Unauthorized => ResponseErrorBody {
                status,
                message: "unauthorized".to_owned(),
                detail: None,
            },
            ResponseError::InvalidToken => ResponseErrorBody {
                status,
                message: "invalid token".to_owned(),
                detail: None,
            },
            ResponseError::InternalServerError => ResponseErrorBody {
                status,
                message: "internal server error".to_owned(),
                detail: None,
            },
        }
    }

    /// The one-line description used in logs (`warning_not_found: ...`).
    pub fn describe(&self) -> (r: String)
        ensures
            r@ == self.spec_describe(),
    {
        match self {
            ResponseError::BadRequest(m) => {
                let mut s = "warning_bad_request: ".to_owned();
                s.append(m.as_str());
                s
            },
            ResponseError::NotFound(m) => {
                let mut s = "warning_not_found: ".to_owned();
                s.append(m.as_str());
                s
            },
            ResponseError::DatabaseError => "error_storage".to_owned(),
            ResponseError::Unauthorized => "unauthorized_user".to_owned(),
            ResponseError::InvalidToken => "invalid_token".to_owned(),
            ResponseError::InternalServerError => "error_server".to_owned(),
        }
    }
}

} // verus!
