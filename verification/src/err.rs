//! The unified error type.
//!
//! Every failure that leaves this library — a malformed base URL, a transport
//! failure, a non-success HTTP status — is converted into the one [`Error`]
//! type before it reaches a caller. An `Error` carries only a human-readable
//! description derived from the original cause; the cause's identity is not
//! otherwise exposed.

use vstd::prelude::*;

verus! {

/// The single error type all failures are converted into before leaving this
/// library. It wraps the human-readable description of the underlying cause.
#[derive(Debug)]
pub struct Error(pub String);

impl View for Error {
    type V = Seq<char>;

    open spec fn view(&self) -> Seq<char> {
        self.0@
    }
}

impl Error {
    /// The description of the failure, derived from the original cause.
    pub fn description(&self) -> (r: &str)
        ensures
            r@ == self@,
    {
        self.0.as_str()
    }
}

impl core::convert::From<String> for Error {
    /// Wraps an owned message — the uniform conversion every fallible
    /// boundary uses to hand a plain cause out as the unified error.
    fn from(m: String) -> (r: Error) {
        Error(m)
    }
}

impl vstd::std_specs::convert::FromSpecImpl<String> for Error {
    open spec fn obeys_from_spec() -> bool {
        true
    }

    open spec fn from_spec(m: String) -> Error {
        Error(m)
    }
}

/// The result type of every fallible operation in this library.
pub type FallibleResult<T> = core::result::Result<T, Error>;

} // verus!
