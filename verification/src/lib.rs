//! Serving batched key lookups against a swappable state snapshot.
//!
//! A shard that executes transactions asks for the values of a batch of state
//! keys. The request arrives as bytes, is answered from the snapshot that is
//! current, and the values go back, in the order of the keys, to the shard
//! that asked.
//!
//! The library holds the decisions of that service: the wire types and their
//! framing, the slot that holds the current snapshot, the task that answers
//! one request, and the turn of the loop that hands requests out. Channels,
//! locks and threads belong to the program around it.

pub mod error;
pub mod wire;
pub mod codec;
pub mod snapshot;
pub mod worker;
pub mod dispatch;
pub mod service;
pub mod laws;
