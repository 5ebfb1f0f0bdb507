//! HTTP status codes as plain numbers.

use vstd::prelude::*;

verus! {

/// The reason phrase that the `http` crate gives a status code, where it has one.
pub uninterp spec fn canonical_reason_of(code: u16) -> Option<Seq<char>>;

/// An HTTP status code: a number in `100..1000`.
#[derive(Clone, Copy, Debug, PartialEq, Eq, Structural)]
pub struct StatusCode {
    code: u16,
}

impl View for StatusCode {
    type V = u16;

    closed spec fn view(&self) -> u16 {
        self.code
    }
}

/// Whether `code` is a status code at all.
pub open spec fn is_status_code(code: u16) -> bool {
    100 <= code < 1000
}

impl StatusCode {
    /// Every status code lies in `100..1000`.
    #[verifier::type_invariant]
    spec fn inv(&self) -> bool {
        is_status_code(self.code)
    }

    /// The status code `code`, where `code` lies in `100..1000`.
    pub fn from_u16(code: u16) -> (r: Option<StatusCode>)
        ensures
            match r {
                Some(s) => is_status_code(code) && s@ == code,
                None => !is_status_code(code),
            },
    {
        if 100 <= code && code < 1000 {
            Some(StatusCode { code })
        } else {
            None
        }
    }

    /// `400 Bad Request`.
    pub fn bad_request() -> (r: StatusCode)
        ensures
            r@ == 400,
    {
        StatusCode { code: 400 }
    }

    /// `401 Unauthorized`.
    pub fn unauthorized() -> (r: StatusCode)
        ensures
            r@ == 401,
    {
        StatusCode { code: 401 }
    }

    /// `404 Not Found`.
    pub fn not_found() -> (r: StatusCode)
        ensures
            r@ == 404,
    {
        StatusCode { code: 404 }
    }

    /// `405 Method Not Allowed`.
    pub fn method_not_allowed() -> (r: StatusCode)
        ensures
            r@ == 405,
    {
        StatusCode { code: 405 }
    }

    /// `500 Internal Server Error`.
    pub fn internal_server_error() -> (r: StatusCode)
        ensures
            r@ == 500,
    {
        StatusCode { code: 500 }
    }

    /// The code as a number.
    pub fn as_u16(&self) -> (r: u16)
        ensures
            r == self@,
            is_status_code(r),
    {
        proof {
            use_type_invariant(self);
        }
        self.code
    }

    /// Whether the code lies in `400..500`.
    pub fn is_client_error(&self) -> (r: bool)
        ensures
            r == (400 <= self@ < 500),
    {
        400 <= self.code && self.code < 500
    }

    /// Whether the code lies in `500..600`.
    pub fn is_server_error(&self) -> (r: bool)
        ensures
            r == (500 <= self@ < 600),
    {
        500 <= self.code && self.code < 600
    }

    /// The reason phrase of the code ("Not Found" for 404), where it has one.
    pub fn canonical_reason(&self) -> (r: Option<&'static str>)
        ensures
            match r {
                Some(s) => canonical_reason_of(self@) == Some(s@),
                None => canonical_reason_of(self@) is None,
            },
    {
        proof {
            use_type_invariant(self);
        }
        reason_phrase(self.code)
    }
}

/// Calls `http::StatusCode::canonical_reason` (through warp's re-export) on the
/// status code `code`; the result is named `canonical_reason_of(code)`.
#[verifier::external_body]
fn reason_phrase(code: u16) -> (r: Option<&'static str>)
    requires
        is_status_code(code),
    ensures
        match r {
            Some(s) => canonical_reason_of(code) == Some(s@),
            None => canonical_reason_of(code) is None,
        },
{
    match warp::http::StatusCode::from_u16(code) {
        Ok(status) => status.canonical_reason(),
        Err(_) => None,
    }
}

} // verus!
