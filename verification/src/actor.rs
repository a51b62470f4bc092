//! The broadcast actor's state machine.
//!
//! A single owner holds the authoritative sequence counter, the
//! bounded replay buffer and the live-subscriber set.  The surrounding
//! runtime feeds it one mailbox item at a time — a submitted event, an
//! attach request, or an idle tick — performs the sends it decides on,
//! and reports the outcome of each fan-out back.  All ordering,
//! eviction, cursor-validation and pruning decisions are made here.
//!
//! A ghost log of every event ever broadcast relates the bounded
//! buffer to the full history: the buffer is always the suffix of the
//! log holding the most recent entries.

use vstd::prelude::*;

use crate::event::{seq_of, with_seq, Event};
use crate::frame::{error_frame_bytes, future_cursor_frame};

verus! {

/// How many events the replay buffer retains.
pub const REPLAY_CAPACITY: usize = 1000;

/// An event together with the sequence number it was assigned at
/// broadcast time (also stamped into the event itself).
pub struct SequencedEvent {
    pub seq: u64,
    pub event: Event,
}

/// The outcome of an attach request.
pub enum Backfill {
    /// The cursor was valid (or absent): the connection joins the live
    /// set after the buffer entries from `replay_from` onward have
    /// been replayed to it.
    Accept { replay_from: usize },
    /// The cursor lies in the future: send `frame` and drop the
    /// connection.
    Reject { frame: Vec<u8> },
}

/// The successor of a sequence number or counter; wraps on overflow
/// rather than erroring (practically unreachable).
pub open spec fn wrapping_next(s: u64) -> u64 {
    if s == u64::MAX {
        0
    } else {
        (s + 1) as u64
    }
}

/// Keep the elements of `s` whose position in `ok` is marked good,
/// preserving order.
pub open spec fn filter_ok(s: Seq<u64>, ok: Seq<bool>) -> Seq<u64>
    recommends
        s.len() == ok.len(),
    decreases s.len(),
{
    if s.len() == 0 {
        Seq::empty()
    } else if ok.len() == 0 {
        Seq::empty()
    } else {
        filter_ok(s.drop_last(), ok.drop_last()) + if ok.last() {
            seq![s.last()]
        } else {
            Seq::empty()
        }
    }
}

/// The broadcast actor's state: sequence counter, replay buffer,
/// live-subscriber set and observability counters.
pub struct Firehose {
    /// The sequence number of the most recently accepted event; the
    /// first event is assigned 1.
    pub last_seq: u64,
    /// The replay buffer, oldest first; never longer than
    /// [`REPLAY_CAPACITY`].
    pub history: Vec<SequencedEvent>,
    /// The identifiers of the live subscribers, in attach order.
    pub clients: Vec<u64>,
    /// The identifier the next attaching subscriber will receive.
    pub next_client: u64,
    /// How many frames have been fanned out (messages and liveness
    /// probes alike).
    pub messages: u64,
    /// The full broadcast log, for reasoning only: everything ever
    /// accepted, in order.
    pub log: Ghost<Seq<SequencedEvent>>,
}

impl Firehose {
    /// The replay buffer is the suffix of the broadcast log holding
    /// the most recent entries; sequence numbers are assigned 1, 2,
    /// ... in log order (until the counter would wrap).
    pub open spec fn wf(self) -> bool {
        &&& self.history@.len() == if self.log@.len() < REPLAY_CAPACITY {
            self.log@.len() as int
        } else {
            REPLAY_CAPACITY as int
        }
        &&& self.history@ == self.log@.subrange(
            self.log@.len() - self.history@.len(),
            self.log@.len() as int,
        )
        &&& forall|i: int|
            0 <= i < self.log@.len() ==> (#[trigger] self.log@[i]).seq == seq_of(self.log@[i].event)
        &&& self.log@.len() <= u64::MAX ==> self.last_seq == self.log@.len()
        &&& self.log@.len() <= u64::MAX ==> forall|i: int|
            0 <= i < self.log@.len() ==> (#[trigger] self.log@[i]).seq == i + 1
    }

    /// A fresh actor: no events accepted, no subscribers.
    pub fn new() -> (fh: Firehose)
        ensures
            fh.wf(),
            fh.last_seq == 0,
            fh.log@ == Seq::<SequencedEvent>::empty(),
            fh.history@.len() == 0,
            fh.clients@.len() == 0,
            fh.next_client == 0,
            fh.messages == 0,
    {
        let fh = Firehose {
            last_seq: 0,
            history: Vec::new(),
            clients: Vec::new(),
            next_client: 0,
            messages: 0,
            log: Ghost(Seq::empty()),
        };
        assert(fh.history@ =~= fh.log@.subrange(0, 0));
        fh
    }

    /// Accept a submitted event: assign the next sequence number,
    /// stamp it into the event, and append the result to the replay
    /// buffer, evicting the oldest entry if the buffer is full.
    /// Returns the stamped event for serialization and fan-out.
    pub fn broadcast_event(&mut self, ev: Event) -> (seq: u64)
        requires
            old(self).wf(),
        ensures
            final(self).wf(),
            seq == wrapping_next(old(self).last_seq),
            final(self).last_seq == seq,
            final(self).log@ == old(self).log@.push(
                SequencedEvent { seq, event: with_seq(ev, seq) },
            ),
            final(self).history@ == (if old(self).history@.len() < REPLAY_CAPACITY {
                old(self).history@
            } else {
                old(self).history@.skip(1)
            }).push(SequencedEvent { seq, event: with_seq(ev, seq) }),
            final(self).clients == old(self).clients,
            final(self).next_client == old(self).next_client,
            final(self).messages == old(self).messages,
    {
        let seq: u64 = if self.last_seq == u64::MAX {
            0
        } else {
            self.last_seq + 1
        };
        self.last_seq = seq;
        let mut ev = ev;
        ev.set_seq(seq);
        let entry = SequencedEvent { seq, event: ev };
        let ghost entry_g = entry;
        if self.history.len() == REPLAY_CAPACITY {
            self.history.remove(0);
        }
        self.history.push(entry);
        proof {
            self.log@ = self.log@.push(entry_g);
        }
        proof {
            let oldlog = old(self).log@;
            let newlog = self.log@;
            assert(self.history@ =~= newlog.subrange(
                newlog.len() - self.history@.len(),
                newlog.len() as int,
            ));
        }
        seq
    }

    /// Validate an attach request's cursor and compute the replay.
    ///
    /// No cursor joins live with no replay; a cursor no greater than
    /// the current sequence number replays every retained entry whose
    /// sequence number exceeds it (entries already evicted are
    /// irrecoverably lost to this subscriber); a cursor in the future
    /// is rejected with a single error frame and no attachment.
    pub fn attach(&self, cursor: Option<u64>) -> (d: Backfill)
        requires
            self.wf(),
        ensures
            (d is Reject) <==> (cursor matches Some(c) && c > self.last_seq),
            (d matches Backfill::Reject { frame } ==> cursor matches Some(c) && frame@
                == error_frame_bytes(c, self.last_seq)),
            (d matches Backfill::Accept { replay_from } ==> {
                &&& replay_from <= self.history@.len()
                &&& (cursor is None ==> replay_from == self.history@.len())
                &&& (cursor matches Some(c) ==> forall|i: int|
                    0 <= i < replay_from ==> (#[trigger] self.history@[i]).seq <= c)
                &&& (cursor matches Some(c) ==> (replay_from < self.history@.len()
                    ==> self.history@[replay_from as int].seq > c))
                &&& (self.log@.len() <= u64::MAX ==> (cursor matches Some(c) ==> forall|i: int|
                    replay_from <= i < self.history@.len() ==> (#[trigger] self.history@[i]).seq
                        > c))
            }),
    {
        match cursor {
            None => Backfill::Accept { replay_from: self.history.len() },
            Some(c) => {
                if c > self.last_seq {
                    Backfill::Reject { frame: future_cursor_frame(c, self.last_seq) }
                } else {
                    let mut i: usize = 0;
                    while i < self.history.len() && self.history[i].seq <= c
                        invariant
                            i <= self.history@.len(),
                            forall|j: int|
                                0 <= j < i ==> (#[trigger] self.history@[j]).seq <= c,
                        decreases self.history@.len() - i,
                    {
                        i = i + 1;
                    }
                    proof {
                        if self.log@.len() <= u64::MAX {
                            let base = self.log@.len() - self.history@.len();
                            assert forall|j: int|
                                i <= j < self.history@.len() implies (#[trigger] self.history@[j]).seq
                                > c by {
                                assert(self.history@[j] == self.log@[base + j]);
                                assert(self.history@[j].seq == base + j + 1);
                                if i < self.history@.len() {
                                    assert(self.history@[i as int] == self.log@[base + i]);
                                }
                            }
                        }
                    }
                    Backfill::Accept { replay_from: i }
                }
            },
        }
    }

    /// Hand out the next subscriber identifier and add it to the live
    /// set.  Called once an accepted attach request has finished its
    /// replay.
    pub fn add_client(&mut self) -> (id: u64)
        ensures
            id == old(self).next_client,
            final(self).clients@ == old(self).clients@.push(id),
            final(self).next_client == wrapping_next(old(self).next_client),
            final(self).last_seq == old(self).last_seq,
            final(self).history == old(self).history,
            final(self).log == old(self).log,
            final(self).messages == old(self).messages,
    {
        let id: u64 = self.next_client;
        self.clients.push(id);
        self.next_client = if self.next_client == u64::MAX {
            0
        } else {
            self.next_client + 1
        };
        id
    }

    /// Record the outcome of one fan-out pass: count the broadcast and
    /// keep exactly the subscribers whose send succeeded, in order.
    /// `ok[i]` reports the send to `clients[i]`.
    pub fn record_fanout(&mut self, ok: &Vec<bool>)
        requires
            ok@.len() == old(self).clients@.len(),
        ensures
            final(self).clients@ == filter_ok(old(self).clients@, ok@),
            final(self).messages == wrapping_next(old(self).messages),
            final(self).last_seq == old(self).last_seq,
            final(self).history == old(self).history,
            final(self).log == old(self).log,
            final(self).next_client == old(self).next_client,
    {
        let mut kept: Vec<u64> = Vec::new();
        let mut i: usize = 0;
        while i < self.clients.len()
            invariant
                i <= self.clients@.len(),
                ok@.len() == self.clients@.len(),
                kept@ == filter_ok(self.clients@.take(i as int), ok@.take(i as int)),
            decreases self.clients@.len() - i,
        {
            proof {
                assert(self.clients@.take(i + 1).drop_last() =~= self.clients@.take(i as int));
                assert(ok@.take(i + 1).drop_last() =~= ok@.take(i as int));
                assert(self.clients@.take(i + 1).last() == self.clients@[i as int]);
                assert(ok@.take(i + 1).last() == ok@[i as int]);
            }
            if ok[i] {
                kept.push(self.clients[i]);
            }
            i = i + 1;
            assert(kept@ =~= filter_ok(self.clients@.take(i as int), ok@.take(i as int)));
        }
        proof {
            assert(self.clients@.take(self.clients@.len() as int) =~= self.clients@);
            assert(ok@.take(ok@.len() as int) =~= ok@);
        }
        self.clients = kept;
        self.messages = if self.messages == u64::MAX {
            0
        } else {
            self.messages + 1
        };
    }

    /// The decision taken at an idle tick: upstream peers are notified
    /// exactly when the live-subscriber set is empty (and the node is
    /// not running in test mode).  A liveness probe is sent to the
    /// live set either way, through the same fan-out path as ordinary
    /// messages.
    pub fn idle_tick(&self, test_mode: bool) -> (notify: bool)
        ensures
            notify == (self.clients@.len() == 0 && !test_mode),
    {
        self.clients.len() == 0 && !test_mode
    }

    /// The sequence number of the most recently accepted event (0 if
    /// none yet).
    pub fn current_sequence(&self) -> (s: u64)
        ensures
            s == self.last_seq,
    {
        self.last_seq
    }

    /// The current depth of the replay buffer.
    pub fn history_len(&self) -> (n: usize)
        ensures
            n == self.history@.len(),
    {
        self.history.len()
    }

    /// Borrow a replay-buffer entry, oldest first.
    pub fn history_at(&self, i: usize) -> (e: &SequencedEvent)
        requires
            i < self.history@.len(),
        ensures
            *e == self.history@[i as int],
    {
        &self.history[i]
    }

    /// The number of live subscribers.
    pub fn client_count(&self) -> (n: usize)
        ensures
            n == self.clients@.len(),
    {
        self.clients.len()
    }

    /// How many frames have been fanned out so far.
    pub fn messages_broadcast(&self) -> (n: u64)
        ensures
            n == self.messages,
    {
        self.messages
    }
}

} // verus!
