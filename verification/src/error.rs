//! The ways in which serving a request ends without a response.

use vstd::prelude::*;

verus! {

/// Why a request got no response, or why the service stopped.
///
/// Every one of these is final for the unit of work it ends: nothing is
/// retried and nothing is answered in part.
#[derive(Clone, Copy, Debug, PartialEq, Eq, Structural)]
pub enum ServiceError {
    /// A key was looked up before any snapshot was installed.
    NoStateView,
    /// The inbound bytes are not a well-formed request.
    Decode,
    /// The installed snapshot could not answer for a key.
    Lookup,
    /// The response could not be put into bytes.
    Encode,
    /// The shard that a request names is not one of the known shards.
    UnknownShard,
    /// The inbound channel is closed; the dispatch loop has ended.
    ChannelClosed,
}

} // verus!
