//! The library's error type.
use vstd::prelude::*;

verus! {

/// What went wrong, in words.
#[derive(Debug, PartialEq, Clone)]
pub enum Error {
    Generic(String),
}

impl Error {
    /// The text of the error.
    pub open spec fn spec_message(&self) -> Seq<char> {
        match self {
            Error::Generic(m) => m@,
        }
    }

    /// The text of the error.
    pub fn message(&self) -> (r: &String)
        ensures
            r@ == self.spec_message(),
    {
        match self {
            Error::Generic(m) => m,
        }
    }
}

impl From<String> for Error {
    fn from(message: String) -> (r: Error) {
        Error::Generic(message)
    }
}

impl vstd::std_specs::convert::FromSpecImpl<String> for Error {
    open spec fn obeys_from_spec() -> bool {
        true
    }

    open spec fn from_spec(message: String) -> Error {
        Error::Generic(message)
    }
}

} // verus!
