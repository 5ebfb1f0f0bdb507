//! The error that the request handlers reject with: a status code and,
//! where there was one, the message of the error behind it.

use vstd::prelude::*;
use crate::server::status::StatusCode;

verus! {

/// What an [`Error`] holds: its status code and the message of its source.
pub struct ErrorView {
    pub code: u16,
    pub source: Option<Seq<char>>,
}

/// An error answered with the status code `code`.
#[derive(Debug)]
pub struct Error {
    code: StatusCode,
    source: Option<String>,
}

impl View for Error {
    type V = ErrorView;

    closed spec fn view(&self) -> ErrorView {
        ErrorView {
            code: self.code@,
            source: match self.source {
                Some(s) => Some(s@),
                None => None,
            },
        }
    }
}

impl Error {
    /// An error with the given code and no source.
    pub fn from_status(code: StatusCode) -> (e: Error)
        ensures
            e@.code == code@,
            e@.source is None,
    {
        Error { code, source: None }
    }

    /// An error with the given code whose source had the message `source`.
    pub fn with_source(code: StatusCode, source: String) -> (e: Error)
        ensures
            e@.code == code@,
            e@.source == Some(source@),
    {
        Error { code, source: Some(source) }
    }

    /// `404 Not Found`, with no source.
    pub fn not_found() -> (e: Error)
        ensures
            e@.code == 404,
            e@.source is None,
    {
        Error::from_status(StatusCode::not_found())
    }

    /// `500 Internal Server Error`, with no source.
    pub fn server_error() -> (e: Error)
        ensures
            e@.code == 500,
            e@.source is None,
    {
        Error::from_status(StatusCode::internal_server_error())
    }

    /// The status code.
    pub fn code(&self) -> (c: StatusCode)
        ensures
            c@ == self@.code,
    {
        self.code
    }

    /// The message of the error behind this one, if any.
    pub fn source(&self) -> (s: Option<&str>)
        ensures
            match s {
                Some(m) => self@.source == Some(m@),
                None => self@.source is None,
            },
    {
        match &self.source {
            Some(m) => Some(m.as_str()),
            None => None,
        }
    }
}

impl From<StatusCode> for Error {
    fn from(code: StatusCode) -> (e: Error)
        ensures
            e@.code == code@,
            e@.source is None,
    {
        Error { code, source: None }
    }
}

impl vstd::std_specs::convert::FromSpecImpl<StatusCode> for Error {
    open spec fn obeys_from_spec() -> bool {
        true
    }

    closed spec fn from_spec(code: StatusCode) -> Error {
        Error { code, source: None }
    }
}

/// Turns a failed result into an [`Error`] with a chosen status code,
/// keeping the failure's message as the source.
pub trait ResultExt: Sized {
    type Ok;

    fn status_code_error(self, code: StatusCode) -> Result<Self::Ok, Error>;

    fn server_error(self) -> Result<Self::Ok, Error>;

    fn client_error(self) -> Result<Self::Ok, Error>;
}

impl<T> ResultExt for Result<T, String> {
    type Ok = T;

    fn status_code_error(self, code: StatusCode) -> (r: Result<T, Error>)
        ensures
            match self {
                Ok(v) => r == Ok::<T, Error>(v),
                Err(m) => r matches Err(e) && e@.code == code@ && e@.source == Some(m@),
            },
    {
        match self {
            Ok(v) => Ok(v),
            Err(m) => Err(Error::with_source(code, m)),
        }
    }

    fn server_error(self) -> (r: Result<T, Error>)
        ensures
            match self {
                Ok(v) => r == Ok::<T, Error>(v),
                Err(m) => r matches Err(e) && e@.code == 500 && e@.source == Some(m@),
            },
    {
        self.status_code_error(StatusCode::internal_server_error())
    }

    fn client_error(self) -> (r: Result<T, Error>)
        ensures
            match self {
                Ok(v) => r == Ok::<T, Error>(v),
                Err(m) => r matches Err(e) && e@.code == 400 && e@.source == Some(m@),
            },
    {
        self.status_code_error(StatusCode::bad_request())
    }
}

} // verus!
