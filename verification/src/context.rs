//! What the host tells the oracle about a request: who sent it, and in which
//! block it runs.

use vstd::prelude::*;

verus! {

/// The block in which a request runs.
#[derive(Clone, Copy, Debug, PartialEq, Eq, Structural)]
pub struct BlockInfo {
    /// The height of the block. Records are ordered by it.
    pub height: u64,
    /// The time of the block: a Unix timestamp, in seconds.
    pub time: u64,
}

/// What the host says of the block in which a request runs.
#[derive(Clone, Copy, Debug, PartialEq, Eq, Structural)]
pub struct Env {
    pub block: BlockInfo,
}

/// The sender of a request.
#[derive(Debug, PartialEq, Eq)]
pub struct MessageInfo {
    pub sender: String,
}

impl Clone for MessageInfo {
    fn clone(&self) -> (r: MessageInfo)
        ensures
            r == *self,
    {
        MessageInfo { sender: self.sender.clone() }
    }
}

} // verus!
