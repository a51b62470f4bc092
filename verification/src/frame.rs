//! The on-wire frame envelope.
//!
//! Every frame is a header followed by a body, each a single
//! canonically encoded CBOR value, concatenated.  A message header is
//! the map `{"t": <type tag>, "op": 1}` and an error header the map
//! `{"op": -1}`; canonical map ordering puts the shorter key `"t"`
//! first.  The body of a message frame is the serialized event; the
//! body of an error frame names the error and carries a human-readable
//! message.

use vstd::prelude::*;
use vstd::string::*;

use crate::cbor::{cbor_text, cbor_text_header, dec_of, push_bytes, push_dec, push_text,
    push_text_header};
use crate::event::{tag_bytes, Event};

verus! {

/// The header of a message frame: the CBOR map `{"t": tag, "op": 1}`
/// in canonical key order.
pub open spec fn message_header_bytes(tag: Seq<u8>) -> Seq<u8> {
    seq![0xa2u8, 0x61u8, 0x74u8] + cbor_text_header(tag.len()) + tag + seq![
        0x62u8,
        0x6fu8,
        0x70u8,
        0x01u8,
    ]
}

/// The header of an error frame: the CBOR map `{"op": -1}`.
pub open spec fn error_header_bytes() -> Seq<u8> {
    seq![0xa1u8, 0x62u8, 0x6fu8, 0x70u8, 0x20u8]
}

/// The text of the message sent to a subscriber whose cursor lies in
/// the future, as UTF-8 bytes.
pub open spec fn future_cursor_message_bytes(cursor: u64, cur_seq: u64) -> Seq<u8> {
    ("cursor ").spec_bytes() + dec_of(cursor as nat) + (
    " is greater than the current sequence number ").spec_bytes() + dec_of(cur_seq as nat)
}

/// The body of the error frame for a future cursor: the CBOR map
/// `{"error": "FutureCursor", "message": <text>}` in canonical key
/// order.
pub open spec fn future_cursor_body_bytes(cursor: u64, cur_seq: u64) -> Seq<u8> {
    seq![0xa2u8] + cbor_text("error") + cbor_text("FutureCursor") + cbor_text("message")
        + cbor_text_header(future_cursor_message_bytes(cursor, cur_seq).len())
        + future_cursor_message_bytes(cursor, cur_seq)
}

/// The complete error frame sent to a subscriber that attached with
/// `cursor` while the current sequence number was `cur_seq`.
pub open spec fn error_frame_bytes(cursor: u64, cur_seq: u64) -> Seq<u8> {
    error_header_bytes() + future_cursor_body_bytes(cursor, cur_seq)
}

/// The complete message frame for an event with tag `tag` and
/// serialized body `body`.
pub open spec fn message_frame_bytes(tag: Seq<u8>, body: Seq<u8>) -> Seq<u8> {
    message_header_bytes(tag) + body
}

/// Build the header of a message frame carrying `ev`.
pub fn message_header(ev: &Event) -> (h: Vec<u8>)
    ensures
        h@ == message_header_bytes(tag_bytes(*ev)),
{
    let mut h: Vec<u8> = Vec::new();
    h.push(0xa2);
    h.push(0x61);
    h.push(0x74);
    let t = ev.type_tag();
    let b: &[u8] = t.as_bytes();
    push_text_header(&mut h, b.len());
    crate::cbor::push_str_bytes(&mut h, t);
    h.push(0x62);
    h.push(0x6f);
    h.push(0x70);
    h.push(0x01);
    assert(h@ =~= message_header_bytes(tag_bytes(*ev)));
    h
}

/// Build a complete message frame: the header for `ev`'s tag followed
/// by the already serialized body.
pub fn message_frame(ev: &Event, body: &Vec<u8>) -> (f: Vec<u8>)
    ensures
        f@ == message_frame_bytes(tag_bytes(*ev), body@),
{
    let mut f = message_header(ev);
    push_bytes(&mut f, body);
    f
}

/// Build the complete error frame for a future cursor.
pub fn future_cursor_frame(cursor: u64, cur_seq: u64) -> (f: Vec<u8>)
    ensures
        f@ == error_frame_bytes(cursor, cur_seq),
{
    let mut msg: Vec<u8> = Vec::new();
    crate::cbor::push_str_bytes(&mut msg, "cursor ");
    push_dec(&mut msg, cursor);
    crate::cbor::push_str_bytes(&mut msg, " is greater than the current sequence number ");
    push_dec(&mut msg, cur_seq);
    assert(msg@ =~= future_cursor_message_bytes(cursor, cur_seq));

    let mut f: Vec<u8> = Vec::new();
    f.push(0xa1);
    f.push(0x62);
    f.push(0x6f);
    f.push(0x70);
    f.push(0x20);
    f.push(0xa2);
    push_text(&mut f, "error");
    push_text(&mut f, "FutureCursor");
    push_text(&mut f, "message");
    push_text_header(&mut f, msg.len());
    push_bytes(&mut f, &msg);
    assert(f@ =~= error_frame_bytes(cursor, cur_seq));
    f
}

} // verus!
