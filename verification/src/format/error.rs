//! Error types.
use vstd::prelude::*;
use vstd::std_specs::convert::FromSpecImpl;
use crate::text::{decimal, decimal_string};

verus! {

/// I/O errors of the standard library, carried through unchanged.
#[verifier::external_type_specification]
#[verifier::external_body]
pub struct ExIoError(std::io::Error);

/// General muxing/demuxing errors.
#[derive(Debug)]
pub enum Error {
    /// Invalid input data.
    InvalidData,
    /// A muxing/demuxing operation needs more data to be completed.
    MoreDataNeeded(usize),
    /// A more generic I/O error.
    Io(std::io::Error),
}

/// The text form of a muxing/demuxing error.
pub open spec fn error_text(e: Error) -> Seq<char> {
    match e {
        Error::InvalidData => "Invalid Data"@,
        Error::MoreDataNeeded(n) => decimal(n as nat) + " more bytes needed"@,
        Error::Io(_) => "I/O error"@,
    }
}

impl Error {
    /// The text form of the error.
    pub fn to_string(&self) -> (r: String)
        ensures
            r@ == error_text(*self),
    {
        match self {
            Error::InvalidData => String::from_str("Invalid Data"),
            Error::MoreDataNeeded(n) => {
                let mut s = decimal_string(*n as u64);
                s.append(" more bytes needed");
                s
            },
            Error::Io(_) => String::from_str("I/O error"),
        }
    }

    /// The lower-level error that caused this one: the I/O error of an
    /// I/O failure, none for the other errors.
    pub fn source(&self) -> (r: Option<&std::io::Error>)
        ensures
            match self {
                Error::Io(inner) => r == Some(inner),
                _ => r is None,
            },
    {
        match self {
            Error::Io(inner) => Some(inner),
            _ => None,
        }
    }
}

impl From<std::io::Error> for Error {
    fn from(value: std::io::Error) -> (r: Self) {
        Error::Io(value)
    }
}

impl FromSpecImpl<std::io::Error> for Error {
    open spec fn obeys_from_spec() -> bool {
        true
    }

    open spec fn from_spec(v: std::io::Error) -> Self {
        Error::Io(v)
    }
}

/// A specialized `Result` type for muxing/demuxing operations.
pub type Result<T> = std::result::Result<T, Error>;

} // verus!
