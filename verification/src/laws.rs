//! The guarantees the event bus offers its subscribers, stated and
//! proved over the broadcast actor's model.

use vstd::prelude::*;

use crate::actor::{filter_ok, Firehose, REPLAY_CAPACITY};

verus! {

/// Total order: the stream a subscriber observes while live over the
/// span `[i, j)` of the broadcast log is that span itself, so any two
/// subscribers whose spans overlap see every common event at the same
/// relative position, in submission order.
pub proof fn lemma_total_order(fh: Firehose, i1: int, j1: int, i2: int, j2: int)
    requires
        fh.wf(),
        0 <= i1 <= j1 <= fh.log@.len(),
        0 <= i2 <= j2 <= fh.log@.len(),
    ensures
        forall|k: int|
            (if i1 > i2 {
                i1
            } else {
                i2
            }) <= k < (if j1 < j2 {
                j1
            } else {
                j2
            }) ==> #[trigger] fh.log@.subrange(i1, j1)[k - i1] == fh.log@.subrange(i2, j2)[k
                - i2],
{
}

/// Monotonic sequencing: assigned sequence numbers start at 1 and
/// strictly increase by exactly 1 per accepted event, barring
/// overflow of the 64-bit counter.
pub proof fn lemma_monotonic_sequencing(fh: Firehose)
    requires
        fh.wf(),
        fh.log@.len() <= u64::MAX,
    ensures
        fh.log@.len() > 0 ==> fh.log@[0].seq == 1,
        forall|i: int|
            0 <= i < fh.log@.len() - 1 ==> (#[trigger] fh.log@[i + 1]).seq == fh.log@[i].seq + 1,
{
}

/// Bounded replay: once more events have been accepted than the
/// replay buffer retains, the buffer holds exactly the most recent
/// [`REPLAY_CAPACITY`] of them, oldest first.
pub proof fn lemma_bounded_replay(fh: Firehose)
    requires
        fh.wf(),
        fh.log@.len() >= REPLAY_CAPACITY,
    ensures
        fh.history@.len() == REPLAY_CAPACITY,
        fh.history@ == fh.log@.subrange(
            fh.log@.len() - REPLAY_CAPACITY as int,
            fh.log@.len() as int,
        ),
{
}

/// A cursor older than the oldest retained entry replays the whole
/// retained subset: the replay start computed by an accepted attach
/// request (every entry before it has a sequence number at most the
/// cursor) can only be the buffer's beginning.
pub proof fn lemma_stale_cursor_replays_all(fh: Firehose, c: u64, replay_from: int)
    requires
        fh.wf(),
        fh.log@.len() <= u64::MAX,
        fh.history@.len() > 0,
        c < fh.history@[0].seq,
        0 <= replay_from <= fh.history@.len(),
        forall|i: int| 0 <= i < replay_from ==> (#[trigger] fh.history@[i]).seq <= c,
    ensures
        replay_from == 0,
{
    if replay_from > 0 {
        assert(fh.history@[0].seq <= c);
    }
}

/// Zero-cursor full replay: while fewer events exist than the buffer
/// retains, a cursor of 0 replays every event accepted so far, in
/// order; later events follow with no gap or duplicate because the
/// replay ends exactly at the current sequence number.
pub proof fn lemma_zero_cursor_full_replay(fh: Firehose, replay_from: int)
    requires
        fh.wf(),
        fh.log@.len() <= u64::MAX,
        fh.log@.len() < REPLAY_CAPACITY,
        0 <= replay_from <= fh.history@.len(),
        forall|i: int| 0 <= i < replay_from ==> (#[trigger] fh.history@[i]).seq <= 0,
    ensures
        replay_from == 0,
        fh.history@ == fh.log@,
        fh.history@.len() > 0 ==> fh.history@.last().seq == fh.last_seq,
{
    if fh.history@.len() > 0 && replay_from > 0 {
        assert(fh.history@[0] == fh.log@[0]);
        assert(fh.history@[0].seq <= 0);
    }
    assert(fh.history@ =~= fh.log@);
}

/// Every subscriber marked good survives a fan-out pass unchanged.
pub proof fn lemma_filter_all_ok(s: Seq<u64>, ok: Seq<bool>)
    requires
        s.len() == ok.len(),
        forall|i: int| 0 <= i < ok.len() ==> ok[i],
    ensures
        filter_ok(s, ok) == s,
    decreases s.len(),
{
    if s.len() > 0 {
        lemma_filter_all_ok(s.drop_last(), ok.drop_last());
        assert(filter_ok(s, ok) =~= s);
    } else {
        assert(filter_ok(s, ok) =~= s);
    }
}

/// Disconnect isolation: if during one fan-out exactly the send to
/// the subscriber at position `f` fails, every other live subscriber
/// keeps its place (so it received the event) and the failing
/// subscriber is removed exactly once.
pub proof fn lemma_disconnect_isolation(clients: Seq<u64>, ok: Seq<bool>, f: int)
    requires
        clients.len() == ok.len(),
        0 <= f < ok.len(),
        !ok[f],
        forall|i: int| 0 <= i < ok.len() && i != f ==> ok[i],
    ensures
        filter_ok(clients, ok) == clients.remove(f),
    decreases clients.len(),
{
    if f == clients.len() - 1 {
        lemma_filter_all_ok(clients.drop_last(), ok.drop_last());
        assert(filter_ok(clients, ok) =~= clients.remove(f));
    } else {
        lemma_disconnect_isolation(clients.drop_last(), ok.drop_last(), f);
        assert(filter_ok(clients, ok) =~= clients.remove(f));
    }
}

} // verus!
