//! A repository-change event bus.
//!
//! Structured mutation events are accepted from producers and
//! rebroadcast, in strict arrival order, to streaming subscribers.  A
//! subscriber may attach with a resume cursor and is backfilled from a
//! bounded replay buffer before joining the live stream.
//!
//! The broadcast state machine in [`actor`] owns the sequence counter,
//! the replay buffer and the live-subscriber set; the surrounding
//! runtime only performs the sends and reports their outcomes back.

pub mod actor;
pub mod cbor;
pub mod event;
pub mod frame;
pub mod laws;
pub mod ping;
pub mod relay;
