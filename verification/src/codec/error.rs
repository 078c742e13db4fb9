//! Error types.
use vstd::prelude::*;

verus! {

/// General coding errors.
#[derive(Debug)]
pub enum Error {
    /// Invalid input data.
    InvalidData,
    /// A coding operation needs more data to be completed.
    MoreDataNeeded,
    /// Incomplete input configuration.
    ConfigurationIncomplete,
    /// Invalid input configuration.
    ConfigurationInvalid,
    /// Unsupported requested feature.
    Unsupported(String),
}

/// The text form of a coding error.
pub open spec fn error_text(e: Error) -> Seq<char> {
    match e {
        Error::InvalidData => "Invalid Data"@,
        Error::MoreDataNeeded => "Additional data needed"@,
        Error::ConfigurationIncomplete => "Configuration Incomplete"@,
        Error::ConfigurationInvalid => "Configuration Invalid"@,
        Error::Unsupported(feat) => "Unsupported feature "@ + feat@,
    }
}

impl Error {
    /// The text form of the error.
    pub fn to_string(&self) -> (r: String)
        ensures
            r@ == error_text(*self),
    {
        match self {
            Error::InvalidData => String::from_str("Invalid Data"),
            Error::MoreDataNeeded => String::from_str("Additional data needed"),
            Error::ConfigurationIncomplete => String::from_str("Configuration Incomplete"),
            Error::ConfigurationInvalid => String::from_str("Configuration Invalid"),
            Error::Unsupported(feat) => {
                let mut s = String::from_str("Unsupported feature ");
                s.append(feat.as_str());
                s
            },
        }
    }
}

/// A specialized `Result` type for coding operations.
pub type Result<T> = std::result::Result<T, Error>;

} // verus!
