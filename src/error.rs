//! The one error of the service: an I/O failure while it starts.

use vstd::prelude::*;

verus! {

/// std's I/O error, carried through as it is.
#[verifier::external_type_specification]
#[verifier::external_body]
pub struct ExIoError(std::io::Error);

#[derive(Clone, Copy, Debug, PartialEq, Eq)]
pub enum Error {
    /// Binding or serving the listener failed.
    IOError,
}

/// The text that names an error.
pub open spec fn error_text(e: Error) -> Seq<char> {
    match e {
        Error::IOError => "IOError"@,
    }
}

impl Error {
    /// The name of the error kind.
    pub fn to_string(&self) -> (r: String)
        ensures
            r@ == error_text(*self),
    {
        match self {
            Error::IOError => String::from_str("IOError"),
        }
    }
}

impl From<std::io::Error> for Error {
    /// Every I/O failure is an `IOError`.
    fn from(value: std::io::Error) -> (r: Error)
        ensures
            r == Error::IOError,
    {
        Error::IOError
    }
}

impl vstd::std_specs::convert::FromSpecImpl<std::io::Error> for Error {
    open spec fn obeys_from_spec() -> bool {
        true
    }

    open spec fn from_spec(v: std::io::Error) -> Error {
        Error::IOError
    }
}

/// A result whose error is the service's own.
pub type Result<T> = core::result::Result<T, Error>;

} // verus!
