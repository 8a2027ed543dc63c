//! Errors of the serialization of values.

use vstd::prelude::*;

verus! {

/// Result type for serialization.
pub type Result<T> = std::result::Result<T, Error>;

/// Error type for serialization.
#[derive(Clone, Debug, PartialEq)]
pub enum Error {
    Message(String),
    Unimplemented,
    UnsupportedType,
    ExpectedType(String),
}

impl Error {
    /// The description of the error: its message, where it has one.
    pub open spec fn spec_description(self) -> Seq<char> {
        match self {
            Error::Message(msg) => msg@,
            _ => "dunno"@,
        }
    }

    /// An error with a message of the caller's.
    pub fn custom(msg: &str) -> (r: Error)
        ensures
            r matches Error::Message(m) && m@ == msg@,
            r.spec_description() == msg@,
    {
        Error::Message(String::from_str(msg))
    }

    /// The description of the error: its message, where it has one.
    pub fn description(&self) -> (r: &str)
        ensures
            r@ == self.spec_description(),
    {
        match self {
            Error::Message(msg) => msg.as_str(),
            _ => "dunno",
        }
    }

    /// The error as it is printed: its description.
    pub fn to_string(&self) -> (r: String)
        ensures
            r@ == self.spec_description(),
    {
        String::from_str(self.description())
    }
}

} // verus!
