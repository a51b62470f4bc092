//! The liveness probe's payload.
//!
//! At every idle tick a transport-level ping carrying short random
//! opaque content is sent to every live subscriber.  The content is
//! random, so nothing is promised of its bytes beyond their count and
//! their alphabet.

use rand::RngExt;
use vstd::prelude::*;

verus! {

/// How many bytes of padding a liveness probe carries.
pub const PING_PADDING_LEN: usize = 15;

/// Whether `b` is an ASCII alphanumeric byte.
pub open spec fn is_alnum_byte(b: u8) -> bool {
    (0x30 <= b <= 0x39) || (0x41 <= b <= 0x5a) || (0x61 <= b <= 0x7a)
}

/// Relies on rand's thread-local generator sampled with the
/// `Alphanumeric` distribution: each draw is one ASCII alphanumeric
/// byte, and `take` bounds the draw count.  The content is random, so
/// only the length and the alphabet are stated.
#[verifier::external_body]
fn random_alnum_padding() -> (r: Vec<u8>)
    ensures
        r@.len() == PING_PADDING_LEN,
        forall|i: int| 0 <= i < r@.len() ==> is_alnum_byte(#[trigger] r@[i]),
{
    rand::rng().sample_iter(rand::distr::Alphanumeric).take(PING_PADDING_LEN).collect()
}

/// The payload of one liveness probe: fresh random alphanumeric
/// padding of the fixed length.
pub fn ping_payload() -> (r: Vec<u8>)
    ensures
        r@.len() == PING_PADDING_LEN,
        forall|i: int| 0 <= i < r@.len() ==> is_alnum_byte(#[trigger] r@[i]),
{
    random_alnum_padding()
}

} // verus!
