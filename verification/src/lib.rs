//! Pacing an orchestrator against a remote chain node.
//!
//! Two waits are offered: one that lasts until the chain's height moves away
//! from the height seen first, and one that lasts until the node answers at
//! all. Each is a small state machine that is fed the outcome of one poll at a
//! time and answers with what to do next, so that the caller owns the clock
//! and the connection. Both can also be run to the end against a prepared list
//! of outcomes.

pub mod availability;
pub mod block_advance;
pub mod poll;
pub mod utils;
