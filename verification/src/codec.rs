//! Translation between host text and the bytes of the native transport.
//!
//! Outbound: the transport is null-terminated, so a request holding an
//! embedded null byte cannot be carried; it is rejected before anything
//! reaches the engine. Inbound: the engine hands back raw bytes that are
//! only usable as host text when they are valid UTF-8.

use vstd::prelude::*;
use vstd::string::StringSliceAdditionalSpecFns;
use vstd::utf8::{decode_utf8, valid_utf8};
use crate::error::Error;

verus! {

/// True when the byte sequence holds an embedded null byte.
pub open spec fn has_nul(b: Seq<u8>) -> bool {
    exists|i: int| 0 <= i < b.len() && b[i] == 0
}

/// Index of the first null byte in the slice, or `None` when there is none.
pub fn find_nul(b: &[u8]) -> (r: Option<usize>)
    ensures
        r matches Some(i) ==> i < b@.len() && b@[i as int] == 0 && forall|j: int|
            0 <= j < i ==> b@[j] != 0,
        r is None ==> !has_nul(b@),
{
    let n = b.len();
    let mut i: usize = 0;
    while i < n
        invariant
            i <= n,
            n == b@.len(),
            forall|j: int| 0 <= j < i ==> b@[j] != 0,
        decreases n - i,
    {
        if b[i] == 0 {
            return Some(i);
        }
        i += 1;
    }
    None
}

/// Checks that a request can be represented on the null-terminated
/// transport: it succeeds exactly when the text holds no null byte, and
/// otherwise reports the position of the first one.
pub fn validate_request(request: &str) -> (r: Result<(), Error>)
    ensures
        r is Ok <==> !has_nul(request.spec_bytes()),
        r matches Err(e) ==> e matches Error::NulError { position } && position
            < request.spec_bytes().len() && request.spec_bytes()[position as int] == 0,
{
    match find_nul(request.as_bytes()) {
        None => Ok(()),
        Some(i) => Err(Error::NulError { position: i }),
    }
}

/// Relies on std's `String::from_utf8`: it returns `Ok` exactly when the
/// bytes are valid UTF-8, and then the returned string is those bytes,
/// decoded.
#[verifier::external_body]
fn utf8_string(v: Vec<u8>) -> (r: Option<String>)
    ensures
        r is Some <==> valid_utf8(v@),
        r matches Some(s) ==> s@ == decode_utf8(v@),
{
    String::from_utf8(v).ok()
}

/// Decodes what the engine handed back: nothing (no reply pending, or no
/// synchronous answer) stays nothing, valid UTF-8 bytes become host text,
/// and anything else is an encoding failure.
pub fn decode_reply(raw: Option<Vec<u8>>) -> (r: Result<Option<String>, Error>)
    ensures
        raw is None ==> r == Ok::<Option<String>, Error>(None),
        raw is Some && valid_utf8(raw->0@) ==> r is Ok && r->Ok_0 is Some && r->Ok_0->0@
            == decode_utf8(raw->0@),
        raw is Some && !valid_utf8(raw->0@) ==> r == Err::<Option<String>, Error>(
            Error::Utf8Error,
        ),
{
    match raw {
        None => Ok(None),
        Some(b) => match utf8_string(b) {
            Some(s) => Ok(Some(s)),
            None => Err(Error::Utf8Error),
        },
    }
}

} // verus!
