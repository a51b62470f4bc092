//! The frame encoding against the real wire encoders: the frame
//! headers and the error body must be byte-identical to what the
//! DAG-CBOR serializer produces for the same values.

use serde::ser::SerializeMap;

use firehose::event::Event;
use firehose::frame::{future_cursor_frame, message_frame, message_header};

/// The header of a message frame, serialized exactly as the wire
/// protocol defines it: a map with `op` = 1 and `t` = the type tag.
struct MessageHeader(&'static str);

impl serde::Serialize for MessageHeader {
    fn serialize<S>(&self, serializer: S) -> Result<S::Ok, S::Error>
    where
        S: serde::Serializer,
    {
        let mut map = serializer.serialize_map(None)?;
        map.serialize_key("op")?;
        map.serialize_value(&1)?;
        map.serialize_key("t")?;
        map.serialize_value(self.0)?;
        map.end()
    }
}

/// The header of an error frame: a map with `op` = -1.
struct ErrorHeader;

impl serde::Serialize for ErrorHeader {
    fn serialize<S>(&self, serializer: S) -> Result<S::Ok, S::Error>
    where
        S: serde::Serializer,
    {
        let mut map = serializer.serialize_map(None)?;
        map.serialize_key("op")?;
        map.serialize_value(&-1)?;
        map.end()
    }
}

fn sample_commit_event() -> Event {
    Event::Commit {
        seq: 0,
        time: "2024-01-01T00:00:00.000Z".to_string(),
        data: firehose::event::Commit {
            car: vec![1, 2, 3],
            ops: Vec::new(),
            cid: vec![0x55],
            rev: "3jzfcijpj2z2a".to_string(),
            did: "did:web:example.com".to_string(),
            pcid: None,
            blobs: Vec::new(),
        },
    }
}

fn sample_identity_event() -> Event {
    Event::Identity {
        seq: 0,
        did: "did:web:example.com".to_string(),
        time: "2024-01-01T00:00:00.000Z".to_string(),
        handle: Some("example.com".to_string()),
    }
}

fn sample_account_event() -> Event {
    Event::Account {
        seq: 0,
        did: "did:web:example.com".to_string(),
        time: "2024-01-01T00:00:00.000Z".to_string(),
        active: true,
        status: None,
    }
}

#[test]
fn message_headers_match_the_wire_encoder() {
    for (ev, tag) in [
        (sample_commit_event(), "#commit"),
        (sample_account_event(), "#account"),
        (sample_identity_event(), "#identity"),
    ] {
        let expected = serde_ipld_dagcbor::to_vec(&MessageHeader(tag)).unwrap();
        assert_eq!(message_header(&ev), expected);
    }
}

#[test]
fn commit_header_exact_bytes() {
    let h = message_header(&sample_commit_event());
    let mut expected = vec![0xa2, 0x61, b't', 0x67];
    expected.extend_from_slice(b"#commit");
    expected.extend_from_slice(&[0x62, b'o', b'p', 0x01]);
    assert_eq!(h, expected);
}

#[test]
fn message_frame_is_header_then_body() {
    let ev = sample_identity_event();
    let body = vec![0xa0, 0x01, 0x02];
    let frame = message_frame(&ev, &body);
    let mut expected = message_header(&ev);
    expected.extend_from_slice(&body);
    assert_eq!(frame, expected);
}

#[test]
fn future_cursor_frame_matches_the_wire_encoders() {
    let cursor: u64 = 42;
    let seq: u64 = 7;
    let mut expected = serde_ipld_dagcbor::to_vec(&ErrorHeader).unwrap();
    let err = atrium_api::com::atproto::sync::subscribe_repos::Error::FutureCursor(Some(
        format!("cursor {cursor} is greater than the current sequence number {seq}"),
    ));
    expected.extend_from_slice(&serde_ipld_dagcbor::to_vec(&err).unwrap());
    assert_eq!(future_cursor_frame(cursor, seq), expected);
}

#[test]
fn future_cursor_frame_with_large_numbers() {
    let cursor = u64::MAX;
    let seq: u64 = 1234567890123456789;
    let mut expected = serde_ipld_dagcbor::to_vec(&ErrorHeader).unwrap();
    let err = atrium_api::com::atproto::sync::subscribe_repos::Error::FutureCursor(Some(
        format!("cursor {cursor} is greater than the current sequence number {seq}"),
    ));
    expected.extend_from_slice(&serde_ipld_dagcbor::to_vec(&err).unwrap());
    assert_eq!(future_cursor_frame(cursor, seq), expected);
}

#[test]
fn text_items_match_the_wire_encoder_at_every_length_form() {
    // One string per CBOR length form: 1-byte, 2-byte and 3-byte
    // headers, and the 5-byte header for lengths beyond 65535.
    for len in [0, 1, 23, 24, 255, 256, 65535, 65536] {
        let s = "x".repeat(len);
        let mut got = Vec::new();
        firehose::cbor::push_text(&mut got, &s);
        let expected = serde_ipld_dagcbor::to_vec(&s).unwrap();
        assert_eq!(got, expected, "text item of length {len}");
    }
}

#[test]
fn decimal_digits_are_exact() {
    for (n, s) in [(0u64, "0"), (7, "7"), (10, "10"), (1000, "1000"), (u64::MAX, "18446744073709551615")] {
        let mut got = Vec::new();
        firehose::cbor::push_dec(&mut got, n);
        assert_eq!(got, s.as_bytes(), "digits of {n}");
    }
}

#[test]
fn type_tags_follow_the_event_kind() {
    assert_eq!(sample_commit_event().type_tag(), "#commit");
    assert_eq!(sample_account_event().type_tag(), "#account");
    assert_eq!(sample_identity_event().type_tag(), "#identity");
}

#[test]
fn stamping_sets_only_the_sequence_slot() {
    let mut ev = sample_identity_event();
    ev.set_seq(99);
    assert_eq!(ev.sequence(), 99);
    match ev {
        Event::Identity { seq, did, handle, .. } => {
            assert_eq!(seq, 99);
            assert_eq!(did, "did:web:example.com");
            assert_eq!(handle.as_deref(), Some("example.com"));
        }
        _ => panic!("wrong event kind"),
    }
}
