//! The untyped operations: transport validation, reply decoding, the reply
//! buffer, the split halves, and the lifetime accounting.

use tdjson::client::{Client, ReceiveClient, SendClient};
use tdjson::codec::{decode_reply, find_nul, validate_request};
use tdjson::error::Error;
use tdjson::handle::HandleLife;

#[test]
fn error_messages() {
    assert_eq!(Error::Utf8Error.message(), "tdlib sent an invalid utf-8 string");
    assert_eq!(Error::NulError { position: 3 }.message(), "Null characters in request string");
    assert_eq!(Error::InvalidRequestData.message(), "Request couldn't be serialized by serde");
}

#[test]
fn find_nul_reports_first_position() {
    assert_eq!(find_nul(b"abc"), None);
    assert_eq!(find_nul(b""), None);
    assert_eq!(find_nul(b"\0abc"), Some(0));
    assert_eq!(find_nul(b"ab\0c\0"), Some(2));
    assert_eq!(find_nul(b"abc\0"), Some(3));
}

#[test]
fn validate_request_rejects_exactly_embedded_nuls() {
    assert_eq!(validate_request("{\"@type\":\"getMe\"}"), Ok(()));
    assert_eq!(validate_request(""), Ok(()));
    assert_eq!(validate_request("a\0b"), Err(Error::NulError { position: 1 }));
    assert_eq!(validate_request("\0"), Err(Error::NulError { position: 0 }));
}

#[test]
fn decode_reply_decodes_or_reports_encoding() {
    assert_eq!(decode_reply(None), Ok(None));
    assert_eq!(decode_reply(Some(b"hello".to_vec())), Ok(Some("hello".to_string())));
    assert_eq!(decode_reply(Some("grüß".as_bytes().to_vec())), Ok(Some("grüß".to_string())));
    assert_eq!(decode_reply(Some(vec![0xff, 0xfe])), Err(Error::Utf8Error));
}

#[test]
fn prepare_request_hands_on_the_exact_text() {
    let client = Client::new(100);
    let text = client.prepare_request("{\"@type\":\"getMe\"}").unwrap();
    assert_eq!(text, "{\"@type\":\"getMe\"}");
    assert_eq!(
        client.prepare_request("bad\0request"),
        Err(Error::NulError { position: 3 })
    );
}

#[test]
fn accept_reply_stores_and_overwrites() {
    let mut client = Client::new(0);
    assert_eq!(client.last_reply(), None);

    assert_eq!(client.accept_reply(Some(b"first".to_vec())), Ok(true));
    assert_eq!(client.last_reply(), Some("first"));

    // The next poll replaces the buffer: the first reply is gone.
    assert_eq!(client.accept_reply(Some(b"second".to_vec())), Ok(true));
    assert_eq!(client.last_reply(), Some("second"));

    // An empty poll clears it.
    assert_eq!(client.accept_reply(None), Ok(false));
    assert_eq!(client.last_reply(), None);

    // A poll that fails to decode clears it too.
    assert_eq!(client.accept_reply(Some(b"x".to_vec())), Ok(true));
    assert_eq!(client.accept_reply(Some(vec![0x80])), Err(Error::Utf8Error));
    assert_eq!(client.last_reply(), None);
}

#[test]
fn split_moves_the_reply_buffer_to_the_receiver() {
    let mut client = Client::new(25);
    assert_eq!(client.accept_reply(Some(b"pending".to_vec())), Ok(true));
    let (sender, receiver): (SendClient, ReceiveClient) = client.split();
    assert_eq!(receiver.last_reply(), Some("pending"));
    assert_eq!(sender.prepare_request("ok").unwrap(), "ok");
}

#[test]
fn receiver_polls_after_sender_is_gone() {
    // Shared destruction: split the client, drop the sending half, and the
    // receiving half must still work; the one destroy call comes only when
    // the receiver is dropped too.
    let mut life = HandleLife::create();
    let client = Client::new(10);
    let (sender, mut receiver) = client.split();
    life.share(); // the split handed out a second co-owner

    drop(sender);
    assert!(!life.release()); // not the last co-owner: no destroy yet
    assert!(!life.is_destroyed());
    assert_eq!(life.destroy_calls(), 0);

    // The receiver is still fully usable.
    assert_eq!(receiver.accept_reply(Some(b"still alive".to_vec())), Ok(true));
    assert_eq!(receiver.last_reply(), Some("still alive"));

    drop(receiver);
    assert!(life.release()); // last co-owner: destroy now, exactly once
    assert!(life.is_destroyed());
    assert_eq!(life.destroy_calls(), 1);
}

#[test]
fn many_owners_one_destroy() {
    // Eight co-owners come and go in mixed order; however the releases
    // interleave, exactly one of them reports that the destroy call is due.
    let mut life = HandleLife::create();
    for _ in 0..8 {
        life.share();
    }
    let mut destroys = 0u64;
    for i in 0..9 {
        if i == 3 {
            // one more co-owner appears mid-way and leaves again
            life.share();
            if life.release() {
                destroys += 1;
            }
        }
        if life.release() {
            destroys += 1;
        }
    }
    assert_eq!(destroys, 1);
    assert_eq!(life.destroy_calls(), 1);
    assert!(life.is_destroyed());
    assert_eq!(life.owners(), 0);
}

#[test]
fn many_sends_leave_the_sender_intact() {
    // A sending half validates any number of requests without touching the
    // shared instance: after thousands of sends the lifetime accounting is
    // unchanged and a synchronous execute path still works.
    let life = HandleLife::create();
    let client = Client::new(50);
    let (sender, mut receiver) = client.split();
    for i in 0..8000 {
        let text = format!("{{\"@type\":\"sendChatAction\",\"n\":{}}}", i);
        let prepared = sender.prepare_request(&text).unwrap();
        assert_eq!(prepared, text);
    }
    assert!(!life.is_destroyed());
    assert_eq!(life.destroy_calls(), 0);
    assert_eq!(receiver.accept_reply(None), Ok(false));
}

#[test]
fn send_then_execute_scenario() {
    // Send a request, then poll with a zero timeout: nothing is pending,
    // and nothing fails.
    let mut client = Client::new(0);
    let request = "{\"@type\":\"setLogVerbosityLevel\",\"new_verbosity_level\":2}";
    let prepared = client.prepare_request(request).unwrap();
    assert_eq!(prepared, request);
    // The engine answers a zero-timeout poll with nothing.
    assert_eq!(client.accept_reply(None), Ok(false));
    assert_eq!(client.last_reply(), None);
}

#[test]
fn nul_request_fails_on_both_halves_with_no_effect() {
    let mut client = Client::new(0);
    let bad = "{\"@type\":\"x\0\"}";
    assert_eq!(client.prepare_request(bad), Err(Error::NulError { position: 11 }));
    // Nothing changed: the client still has no reply pending.
    assert_eq!(client.last_reply(), None);
    let (sender, receiver) = client.split();
    assert_eq!(sender.prepare_request(bad), Err(Error::NulError { position: 11 }));
    assert_eq!(receiver.last_reply(), None);
}
