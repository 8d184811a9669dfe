//! The closed set of failures surfaced by every operation of the wrapper.

use vstd::prelude::*;

verus! {

/// Why an operation on the native client failed.
///
/// Every raw and typed operation reports its failure through this one
/// enum; no other error shape leaves the library.
#[derive(Clone, Copy, Debug, PartialEq, Eq, Structural)]
pub enum Error {
    /// The native reply was not valid UTF-8.
    Utf8Error,
    /// The outbound text holds an embedded null byte, which the
    /// null-terminated native transport cannot carry. `position` is the
    /// byte index of the first null.
    NulError { position: usize },
    /// A typed payload could not be decoded from the native reply.
    InvalidRequestData,
}

impl Error {
    /// A short human-readable description of the failure.
    pub fn message(&self) -> (r: String)
        ensures
            self is Utf8Error ==> r@ == "tdlib sent an invalid utf-8 string"@,
            self is NulError ==> r@ == "Null characters in request string"@,
            self is InvalidRequestData ==> r@ == "Request couldn't be serialized by serde"@,
    {
        match self {
            Error::Utf8Error => "tdlib sent an invalid utf-8 string".to_owned(),
            Error::NulError { .. } => "Null characters in request string".to_owned(),
            Error::InvalidRequestData => "Request couldn't be serialized by serde".to_owned(),
        }
    }
}

} // verus!
