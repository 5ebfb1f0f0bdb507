//! Turning a refused request into its answer.

use vstd::prelude::*;
use crate::server::error::Error;
use crate::server::status::{StatusCode, canonical_reason_of};

verus! {

/// Why a request was refused.
#[derive(Debug)]
pub enum Rejection {
    /// No route has the request's path.
    NotFound,
    /// A handler or a filter failed with this error.
    Error(Error),
    /// The request body is not the JSON that the route expects.
    BodyDeserialize,
    /// The query string could not be read.
    InvalidQuery,
    /// A header that the route needs is missing.
    MissingHeader,
    /// Some route has the path, none of them the method.
    MethodNotAllowed,
    /// Anything else.
    Other,
}

/// The body of an error answer: the status code and its reason phrase.
#[derive(Debug, Clone, PartialEq, Eq)]
pub struct ErrorMessage {
    pub code: u16,
    pub message: Option<&'static str>,
}

/// The status code that answers a refused request: 404 where no route has
/// the path, the error's own code, 400 for a body, query or header that
/// cannot be read, 405 for a method that no route of the path takes, 500
/// otherwise.
pub open spec fn recovered_code(err: &Rejection) -> u16 {
    match err {
        Rejection::NotFound => 404,
        Rejection::Error(e) => e@.code,
        Rejection::BodyDeserialize | Rejection::InvalidQuery | Rejection::MissingHeader => 400,
        Rejection::MethodNotAllowed => 405,
        Rejection::Other => 500,
    }
}

/// The answer to a refused request: its status code and the JSON body
/// that carries the code and its reason phrase.
pub fn recover(err: &Rejection) -> (r: (StatusCode, ErrorMessage))
    ensures
        r.0@ == recovered_code(err),
        r.1.code == r.0@,
        match r.1.message {
            Some(m) => canonical_reason_of(r.0@) == Some(m@),
            None => canonical_reason_of(r.0@) is None,
        },
{
    let code = match err {
        Rejection::NotFound => StatusCode::not_found(),
        Rejection::Error(e) => e.code(),
        Rejection::BodyDeserialize | Rejection::InvalidQuery | Rejection::MissingHeader => {
            StatusCode::bad_request()
        },
        Rejection::MethodNotAllowed => StatusCode::method_not_allowed(),
        Rejection::Other => StatusCode::internal_server_error(),
    };
    let message = ErrorMessage { code: code.as_u16(), message: code.canonical_reason() };
    (code, message)
}

/// A handler's error is answered with its own status code, whatever that
/// code is: a missing resource stays 404, a bad request 400, a server
/// error 500.
pub proof fn law_error_keeps_its_code(e: Error)
    ensures
        recovered_code(&Rejection::Error(e)) == e@.code,
{
}

/// The refusals that are no handler error have fixed codes: no route 404,
/// wrong method 405, unreadable body, query or header 400, anything else 500.
pub proof fn law_fixed_refusal_codes()
    ensures
        recovered_code(&Rejection::NotFound) == 404,
        recovered_code(&Rejection::MethodNotAllowed) == 405,
        recovered_code(&Rejection::BodyDeserialize) == 400,
        recovered_code(&Rejection::InvalidQuery) == 400,
        recovered_code(&Rejection::MissingHeader) == 400,
        recovered_code(&Rejection::Other) == 500,
{
}

} // verus!
