//! The client wrappers around one native instance.
//!
//! The native engine itself is driven outside this library; these types
//! hold everything the wrapper decides about an operation. An outbound
//! request passes through `prepare_request`, which admits exactly the
//! texts the null-terminated transport can carry. An inbound reply passes
//! through `accept_reply`, which decodes the raw bytes and stores the text
//! in the client's reply buffer -- overwriting whatever the previous
//! operation left there, so a reply is only readable until the next
//! operation on the same client.
//!
//! `split` partitions the concurrency contract: the sending half only
//! validates outbound texts and owns no reply buffer, so any number of
//! threads may use it at once; the receiving half owns the one reply
//! buffer, and every operation on it demands exclusive access.

use vstd::prelude::*;
use vstd::string::StringSliceAdditionalSpecFns;
use vstd::utf8::valid_utf8;
use crate::codec;
use crate::error::Error;

verus! {

/// The text a raw reply decodes to: `None` both when the engine handed
/// nothing back and when the bytes were not valid UTF-8.
pub open spec fn decoded_reply(raw: Option<Seq<u8>>) -> Option<Seq<char>> {
    match raw {
        None => None,
        Some(b) => if valid_utf8(b) {
            Some(vstd::utf8::decode_utf8(b))
        } else {
            None
        },
    }
}

/// The view of a raw reply as handed in from the engine's edge.
pub open spec fn raw_view(raw: Option<Vec<u8>>) -> Option<Seq<u8>> {
    match raw {
        None => None,
        Some(b) => Some(b@),
    }
}

/// The receiving half of a split client: sole owner of the reply buffer.
///
/// One value of this type may move freely between threads, but every
/// operation takes it exclusively, so the poll operation can never run
/// twice at once on the same instance -- the restriction the native engine
/// demands for `receive` but does not enforce.
pub struct ReceiveClient {
    reply: Option<String>,
}

impl ReceiveClient {
    /// The text of the last reply, if the last operation produced one.
    pub closed spec fn spec_reply(self) -> Option<Seq<char>> {
        match self.reply {
            Some(s) => Some(s@),
            None => None,
        }
    }

    /// A fresh receiving half with no reply pending.
    pub fn new() -> (c: ReceiveClient)
        ensures
            c.spec_reply() is None,
    {
        ReceiveClient { reply: None }
    }

    /// Takes the raw bytes the engine handed back for a poll or a
    /// synchronous execute, decodes them, and stores the text as the
    /// current reply. The previous reply is discarded whatever happens:
    /// after this call the buffer holds the new reply alone. Returns
    /// whether a reply is now pending, or the encoding failure.
    pub fn accept_reply(&mut self, raw: Option<Vec<u8>>) -> (r: Result<bool, Error>)
        ensures
            final(self).spec_reply() == decoded_reply(raw_view(raw)),
            r is Ok <==> !(raw is Some && !valid_utf8(raw->0@)),
            r matches Ok(pending) ==> pending == (final(self).spec_reply() is Some),
            r matches Err(e) ==> e == Error::Utf8Error && final(self).spec_reply() is None,
    {
        match codec::decode_reply(raw) {
            Ok(text) => {
                let pending = text.is_some();
                self.reply = text;
                Ok(pending)
            },
            Err(e) => {
                self.reply = None;
                Err(e)
            },
        }
    }

    /// The current reply, readable until the next operation on this half
    /// replaces it.
    pub fn last_reply(&self) -> (r: Option<&str>)
        ensures
            r is Some <==> self.spec_reply() is Some,
            r matches Some(s) ==> s@ == self.spec_reply()->0,
    {
        match &self.reply {
            Some(s) => Some(s.as_str()),
            None => None,
        }
    }
}

/// The sending half of a split client.
///
/// Sending is the one operation the native engine itself makes
/// thread-safe, so this half is usable through a shared reference from
/// any number of threads at once. It holds no reply buffer: it can only
/// validate and hand on outbound texts.
pub struct SendClient {}

impl SendClient {
    /// Validates an outbound request for the null-terminated transport and
    /// returns the exact text to hand to the engine, unchanged. Has no
    /// effect of any kind on a failure.
    pub fn prepare_request(&self, request: &str) -> (r: Result<String, Error>)
        ensures
            r is Ok <==> !codec::has_nul(request.spec_bytes()),
            r matches Ok(s) ==> s@ == request@,
            r matches Err(e) ==> e matches Error::NulError { position } && position
                < request.spec_bytes().len() && request.spec_bytes()[position as int] == 0,
    {
        match codec::validate_request(request) {
            Ok(()) => Ok(request.to_owned()),
            Err(e) => Err(e),
        }
    }
}

/// A single-owner client: one native instance, not yet split.
///
/// It can do everything: validate outbound requests, absorb inbound
/// replies, and split itself into the two concurrency-differentiated
/// halves. The default poll timeout travels with it.
pub struct Client {
    /// Default poll timeout, in milliseconds, for pull-style consumption.
    pub timeout_ms: u64,
    rx: ReceiveClient,
}

impl Client {
    /// The text of the last reply, if the last operation produced one.
    pub closed spec fn spec_reply(self) -> Option<Seq<char>> {
        self.rx.spec_reply()
    }

    /// The default poll timeout, in milliseconds.
    pub closed spec fn spec_timeout_ms(self) -> u64 {
        self.timeout_ms
    }

    /// The default poll timeout, in milliseconds.
    pub fn timeout_ms(&self) -> (r: u64)
        ensures
            r == self.spec_timeout_ms(),
    {
        self.timeout_ms
    }

    /// A fresh client with no reply pending and the given default poll
    /// timeout.
    pub fn new(timeout_ms: u64) -> (c: Client)
        ensures
            c.spec_timeout_ms() == timeout_ms,
            c.spec_reply() is None,
    {
        Client { timeout_ms, rx: ReceiveClient::new() }
    }

    /// Validates an outbound request for the null-terminated transport and
    /// returns the exact text to hand to the engine, unchanged. Has no
    /// effect of any kind on a failure.
    pub fn prepare_request(&self, request: &str) -> (r: Result<String, Error>)
        ensures
            r is Ok <==> !codec::has_nul(request.spec_bytes()),
            r matches Ok(s) ==> s@ == request@,
            r matches Err(e) ==> e matches Error::NulError { position } && position
                < request.spec_bytes().len() && request.spec_bytes()[position as int] == 0,
    {
        match codec::validate_request(request) {
            Ok(()) => Ok(request.to_owned()),
            Err(e) => Err(e),
        }
    }

    /// Takes the raw bytes the engine handed back, decodes them, and
    /// stores the text as the current reply, discarding the previous one.
    /// Returns whether a reply is now pending, or the encoding failure.
    pub fn accept_reply(&mut self, raw: Option<Vec<u8>>) -> (r: Result<bool, Error>)
        ensures
            final(self).spec_timeout_ms() == old(self).spec_timeout_ms(),
            final(self).spec_reply() == decoded_reply(raw_view(raw)),
            r is Ok <==> !(raw is Some && !valid_utf8(raw->0@)),
            r matches Ok(pending) ==> pending == (final(self).spec_reply() is Some),
            r matches Err(e) ==> e == Error::Utf8Error && final(self).spec_reply() is None,
    {
        self.rx.accept_reply(raw)
    }

    /// The current reply, readable until the next operation on this client
    /// replaces it.
    pub fn last_reply(&self) -> (r: Option<&str>)
        ensures
            r is Some <==> self.spec_reply() is Some,
            r matches Some(s) ==> s@ == self.spec_reply()->0,
    {
        self.rx.last_reply()
    }

    /// Consumes the client and partitions it into the freely shareable
    /// sending half and the exclusively held receiving half. The two
    /// halves co-own the one native instance; the reply buffer moves to
    /// the receiving half, which is the only component that may poll from
    /// now on.
    pub fn split(self) -> (halves: (SendClient, ReceiveClient))
        ensures
            halves.1.spec_reply() == self.spec_reply(),
    {
        (SendClient {}, self.rx)
    }
}

} // verus!
