//! The three broadcastable event kinds and their sequence slot.
//!
//! Payloads are carried as plain values; the runtime converts them to
//! and from its wire-level representations at the edge.  Every event
//! has exactly one logical slot for the sequence number, stamped by the
//! broadcast actor just before the event is serialized and fanned out.

use vstd::prelude::*;
use vstd::string::*;

verus! {

/// One operation of a commit: create, update or delete of a record at
/// a repository path.  Content identifiers are carried as raw bytes.
pub enum RepoOp {
    Create { cid: Vec<u8>, path: String },
    Update { cid: Vec<u8>, path: String, prev: Vec<u8> },
    Delete { path: String, prev: Vec<u8> },
}

/// A repository commit as handed in by a producer.
pub struct Commit {
    /// The car file containing the commit blocks.
    pub car: Vec<u8>,
    /// The operations performed in this commit.
    pub ops: Vec<RepoOp>,
    /// The content identifier of the commit.
    pub cid: Vec<u8>,
    /// The revision of the commit.
    pub rev: String,
    /// The identity of the repository changed.
    pub did: String,
    /// The previous commit's content identifier (if applicable).
    pub pcid: Option<Vec<u8>>,
    /// Blobs that were created in this commit.
    pub blobs: Vec<Vec<u8>>,
}

/// A broadcastable event: a commit, an account change or an identity
/// change.  Each variant carries its sequence slot and a timestamp
/// fixed by the producer.
pub enum Event {
    Commit { seq: u64, time: String, data: Commit },
    Account { seq: u64, did: String, time: String, active: bool, status: Option<String> },
    Identity { seq: u64, did: String, time: String, handle: Option<String> },
}

/// The sequence number currently stamped into `e`.
pub open spec fn seq_of(e: Event) -> u64 {
    match e {
        Event::Commit { seq, .. } => seq,
        Event::Account { seq, .. } => seq,
        Event::Identity { seq, .. } => seq,
    }
}

/// `e` with its sequence slot set to `s` and everything else unchanged.
pub open spec fn with_seq(e: Event, s: u64) -> Event {
    match e {
        Event::Commit { seq, time, data } => Event::Commit { seq: s, time, data },
        Event::Account { seq, did, time, active, status } => Event::Account {
            seq: s,
            did,
            time,
            active,
            status,
        },
        Event::Identity { seq, did, time, handle } => Event::Identity {
            seq: s,
            did,
            time,
            handle,
        },
    }
}

/// The type tag of `e` on the wire, as UTF-8 bytes.
pub open spec fn tag_bytes(e: Event) -> Seq<u8> {
    match e {
        Event::Commit { .. } => ("#commit").spec_bytes(),
        Event::Account { .. } => ("#account").spec_bytes(),
        Event::Identity { .. } => ("#identity").spec_bytes(),
    }
}

impl Event {
    /// Stamp the assigned sequence number into the event's slot.
    pub fn set_seq(&mut self, s: u64)
        ensures
            *final(self) == with_seq(*old(self), s),
    {
        match self {
            Event::Commit { seq, .. } => {
                *seq = s;
            },
            Event::Account { seq, .. } => {
                *seq = s;
            },
            Event::Identity { seq, .. } => {
                *seq = s;
            },
        }
    }

    /// The type tag of the event on the wire.
    pub fn type_tag(&self) -> (t: &'static str)
        ensures
            t.spec_bytes() == tag_bytes(*self),
    {
        match self {
            Event::Commit { .. } => "#commit",
            Event::Account { .. } => "#account",
            Event::Identity { .. } => "#identity",
        }
    }

    /// Read the sequence number currently stamped into the event.
    pub fn sequence(&self) -> (s: u64)
        ensures
            s == seq_of(*self),
    {
        match self {
            Event::Commit { seq, .. } => *seq,
            Event::Account { seq, .. } => *seq,
            Event::Identity { seq, .. } => *seq,
        }
    }
}

} // verus!
