use super::NodeInfo;
use crate::error::NodeResult;
use vstd::prelude::*;

verus! {

/// A node on the other side. The socket to it belongs to whoever runs the
/// transport.
pub struct Peer {
    pub info: NodeInfo,
}

impl Peer {
    pub fn new(info: NodeInfo) -> (peer: Peer)
        ensures
            peer.info == info,
    {
        Peer { info }
    }

    /// Succeeds, and leaves the peer as it is.
    pub fn connect(&mut self) -> (done: NodeResult<()>)
        ensures
            done is Ok,
            *final(self) == *old(self),
    {
        Ok(())
    }

    /// Succeeds, and leaves the peer as it is.
    pub fn disconnect(&mut self) -> (done: NodeResult<()>)
        ensures
            done is Ok,
            *final(self) == *old(self),
    {
        Ok(())
    }
}

} // verus!
