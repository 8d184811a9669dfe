//! The typed decorator over the untyped operations.
//!
//! A typed request is serialized to one JSON object tagged with its
//! operation name, and from there on travels the same outbound path as any
//! raw text; a typed reply is the raw inbound text, parsed into the update
//! variant set of the schema collaborator. Typed operations never touch
//! the native instance in any other way, so the safety rules of the
//! untyped layer carry over unchanged.
//!
//! The reply type statically associated with one request type is reached
//! through an associated type of the schema collaborator's trait, which
//! the verifier refuses; decoding into it is left to the unverified edge,
//! which reads the same reply buffer these operations fill.

use vstd::prelude::*;
use vstd::string::StringSliceAdditionalSpecFns;
use vstd::utf8::{decode_utf8, encode_utf8, valid_utf8};
use crate::client::{decoded_reply, raw_view, Client, ReceiveClient, SendClient};
use crate::codec;
use crate::error::Error;

verus! {

#[verifier::external_type_specification]
#[verifier::external_body]
pub struct ExUpdate(tdlib_types::types::Update);

/// Whether the given text parses as one of the closed set of update
/// variants. Which texts do is decided by the schema collaborator; it
/// depends on the text alone.
pub uninterp spec fn update_parses(s: Seq<char>) -> bool;

/// Relies on serde_json::to_string over the request's `@type`-tagged form:
/// serialization emits JSON text, in which every control character of a
/// string is written as an escape sequence, so the encoded bytes never
/// hold a null byte.
#[verifier::external_body]
fn encode_method<T: tdlib_types::methods::Method>(request: T) -> (r: Option<String>)
    ensures
        r matches Some(s) ==> !codec::has_nul(encode_utf8(s@)),
{
    serde_json::to_string(&request.tag()).ok()
}

/// Relies on serde_json::from_str for the update variant set: whether the
/// text parses is a function of the text alone.
#[verifier::external_body]
fn decode_update(s: &str) -> (r: Option<tdlib_types::types::Update>)
    ensures
        r is Some <==> update_parses(s@),
{
    serde_json::from_str(s).ok()
}

/// Serializes a typed request and validates it for the transport,
/// returning the exact JSON text to hand to the engine. Since
/// serialization never emits a null byte, the transport check cannot fail:
/// the only possible failure is the encoding one.
pub fn prepare_typed<T: tdlib_types::methods::Method>(request: T) -> (r: Result<String, Error>)
    ensures
        r matches Ok(s) ==> !codec::has_nul(encode_utf8(s@)),
        r matches Err(e) ==> e == Error::InvalidRequestData,
{
    match encode_method(request) {
        None => Err(Error::InvalidRequestData),
        Some(text) => match codec::validate_request(text.as_str()) {
            Ok(()) => Ok(text),
            Err(_) => {
                // serialized text holds no null byte, so the check passed
                proof {
                    assert(false);
                }
                Err(Error::InvalidRequestData)
            },
        },
    }
}

impl ReceiveClient {
    /// Takes the raw bytes the engine handed back for a poll, stores the
    /// decoded text as the current reply exactly as the untyped path does,
    /// and parses it into the update variant set. A reply that is not
    /// valid UTF-8 is the encoding failure; one that does not parse is the
    /// decoding failure.
    pub fn accept_update(&mut self, raw: Option<Vec<u8>>) -> (r: Result<
        Option<tdlib_types::types::Update>,
        Error,
    >)
        ensures
            final(self).spec_reply() == decoded_reply(raw_view(raw)),
            raw is None ==> (r matches Ok(u) && u is None),
            raw is Some && !valid_utf8(raw->0@) ==> (r matches Err(e) && e == Error::Utf8Error),
            raw is Some && valid_utf8(raw->0@) && update_parses(decode_utf8(raw->0@)) ==> (r matches Ok(u)
                && u is Some),
            raw is Some && valid_utf8(raw->0@) && !update_parses(decode_utf8(raw->0@)) ==> (
            r matches Err(e) && e == Error::InvalidRequestData),
    {
        match self.accept_reply(raw) {
            Err(e) => Err(e),
            Ok(false) => Ok(None),
            Ok(true) => match self.last_reply() {
                Some(text) => match decode_update(text) {
                    Some(update) => Ok(Some(update)),
                    None => Err(Error::InvalidRequestData),
                },
                None => {
                    // a pending reply is always readable
                    proof {
                        assert(false);
                    }
                    Ok(None)
                },
            },
        }
    }
}

impl Client {
    /// Serializes a typed request and validates it for the transport; the
    /// typed outbound path of this client.
    pub fn prepare_typed<T: tdlib_types::methods::Method>(&self, request: T) -> (r: Result<
        String,
        Error,
    >)
        ensures
            r matches Ok(s) ==> !codec::has_nul(encode_utf8(s@)),
            r matches Err(e) ==> e == Error::InvalidRequestData,
    {
        prepare_typed(request)
    }

    /// Takes the raw bytes the engine handed back, stores the decoded text
    /// as the current reply exactly as the untyped path does, and parses it
    /// into the update variant set.
    pub fn accept_update(&mut self, raw: Option<Vec<u8>>) -> (r: Result<
        Option<tdlib_types::types::Update>,
        Error,
    >)
        ensures
            final(self).spec_timeout_ms() == old(self).spec_timeout_ms(),
            final(self).spec_reply() == decoded_reply(raw_view(raw)),
            raw is None ==> (r matches Ok(u) && u is None),
            raw is Some && !valid_utf8(raw->0@) ==> (r matches Err(e) && e == Error::Utf8Error),
            raw is Some && valid_utf8(raw->0@) && update_parses(decode_utf8(raw->0@)) ==> (r matches Ok(u)
                && u is Some),
            raw is Some && valid_utf8(raw->0@) && !update_parses(decode_utf8(raw->0@)) ==> (
            r matches Err(e) && e == Error::InvalidRequestData),
    {
        match self.accept_reply(raw) {
            Err(e) => Err(e),
            Ok(false) => Ok(None),
            Ok(true) => match self.last_reply() {
                Some(text) => match decode_update(text) {
                    Some(update) => Ok(Some(update)),
                    None => Err(Error::InvalidRequestData),
                },
                None => {
                    // a pending reply is always readable
                    proof {
                        assert(false);
                    }
                    Ok(None)
                },
            },
        }
    }
}

impl SendClient {
    /// Serializes a typed request and validates it for the transport; the
    /// typed outbound path of the sending half.
    pub fn prepare_typed<T: tdlib_types::methods::Method>(&self, request: T) -> (r: Result<
        String,
        Error,
    >)
        ensures
            r matches Ok(s) ==> !codec::has_nul(encode_utf8(s@)),
            r matches Err(e) ==> e == Error::InvalidRequestData,
    {
        prepare_typed(request)
    }
}

/// A client that speaks typed requests and replies first, over the same
/// untyped operations; the raw operations stay reachable, so typed and
/// untyped use mix freely on the same instance.
pub struct TypedClient {
    inner: Client,
}

impl TypedClient {
    /// The text of the last reply, if the last operation produced one.
    pub closed spec fn spec_reply(self) -> Option<Seq<char>> {
        self.inner.spec_reply()
    }

    /// The default poll timeout, in milliseconds.
    pub closed spec fn spec_timeout_ms(self) -> u64 {
        self.inner.spec_timeout_ms()
    }

    /// A fresh typed client with no reply pending and the given default
    /// poll timeout.
    pub fn new(timeout_ms: u64) -> (c: TypedClient)
        ensures
            c.spec_timeout_ms() == timeout_ms,
            c.spec_reply() is None,
    {
        TypedClient { inner: Client::new(timeout_ms) }
    }

    /// Serializes a typed request and validates it for the transport; the
    /// typed outbound path.
    pub fn prepare_typed<T: tdlib_types::methods::Method>(&self, request: T) -> (r: Result<
        String,
        Error,
    >)
        ensures
            r matches Ok(s) ==> !codec::has_nul(encode_utf8(s@)),
            r matches Err(e) ==> e == Error::InvalidRequestData,
    {
        prepare_typed(request)
    }

    /// Validates a raw outbound request; the untyped outbound path, kept
    /// reachable beside the typed one.
    pub fn prepare_untyped(&self, request: &str) -> (r: Result<String, Error>)
        ensures
            r is Ok <==> !codec::has_nul(request.spec_bytes()),
            r matches Ok(s) ==> s@ == request@,
            r matches Err(e) ==> e matches Error::NulError { position } && position
                < request.spec_bytes().len() && request.spec_bytes()[position as int] == 0,
    {
        self.inner.prepare_request(request)
    }

    /// Takes the raw bytes the engine handed back and stores the decoded
    /// text as the current reply; the untyped inbound path.
    pub fn accept_reply(&mut self, raw: Option<Vec<u8>>) -> (r: Result<bool, Error>)
        ensures
            final(self).spec_timeout_ms() == old(self).spec_timeout_ms(),
            final(self).spec_reply() == decoded_reply(raw_view(raw)),
            r is Ok <==> !(raw is Some && !valid_utf8(raw->0@)),
            r matches Ok(pending) ==> pending == (final(self).spec_reply() is Some),
            r matches Err(e) ==> e == Error::Utf8Error && final(self).spec_reply() is None,
    {
        self.inner.accept_reply(raw)
    }

    /// Takes the raw bytes the engine handed back, stores the decoded text
    /// as the current reply exactly as the untyped path does, and parses it
    /// into the update variant set; the typed inbound path.
    pub fn accept_update(&mut self, raw: Option<Vec<u8>>) -> (r: Result<
        Option<tdlib_types::types::Update>,
        Error,
    >)
        ensures
            final(self).spec_timeout_ms() == old(self).spec_timeout_ms(),
            final(self).spec_reply() == decoded_reply(raw_view(raw)),
            raw is None ==> (r matches Ok(u) && u is None),
            raw is Some && !valid_utf8(raw->0@) ==> (r matches Err(e) && e == Error::Utf8Error),
            raw is Some && valid_utf8(raw->0@) && update_parses(decode_utf8(raw->0@)) ==> (r matches Ok(u)
                && u is Some),
            raw is Some && valid_utf8(raw->0@) && !update_parses(decode_utf8(raw->0@)) ==> (
            r matches Err(e) && e == Error::InvalidRequestData),
    {
        self.inner.accept_update(raw)
    }

    /// The current reply, readable until the next operation on this client
    /// replaces it.
    pub fn last_reply(&self) -> (r: Option<&str>)
        ensures
            r is Some <==> self.spec_reply() is Some,
            r matches Some(s) ==> s@ == self.spec_reply()->0,
    {
        self.inner.last_reply()
    }

    /// The default poll timeout, in milliseconds.
    pub fn timeout_ms(&self) -> (r: u64)
        ensures
            r == self.spec_timeout_ms(),
    {
        self.inner.timeout_ms()
    }

    /// Consumes the typed client and partitions the underlying instance
    /// into the two concurrency-differentiated halves, exactly as the
    /// untyped split does.
    pub fn split(self) -> (halves: (SendClient, ReceiveClient))
        ensures
            halves.1.spec_reply() == self.spec_reply(),
    {
        self.inner.split()
    }
}

} // verus!
