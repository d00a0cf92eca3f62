use super::{NetworkService, NodeInfo};
use crate::error::NodeResult;
use vstd::hash_map::StringHashMap;
use vstd::prelude::*;

verus! {

/// A transport that knows its peers by their identifiers.
pub struct NetworkServer {
    peers: StringHashMap<NodeInfo>,
}

impl NetworkServer {
    /// The identifiers of the peers that the server knows.
    pub closed spec fn peer_ids(&self) -> Set<Seq<char>> {
        self.peers@.dom()
    }

    /// A server that knows no peer.
    pub fn new() -> (server: Self)
        ensures
            server.peer_ids() == Set::<Seq<char>>::empty(),
    {
        NetworkServer { peers: StringHashMap::new() }
    }
}

/// Every operation succeeds and reaches nobody: the server keeps no
/// connection.
impl NetworkService for NetworkServer {
    fn connect(&self, _address: &str) -> (done: NodeResult<()>)
        ensures
            done is Ok,
    {
        Ok(())
    }

    fn disconnect(&self) -> (done: NodeResult<()>)
        ensures
            done is Ok,
    {
        Ok(())
    }

    fn broadcast(&self, _message: Vec<u8>) -> (done: NodeResult<()>)
        ensures
            done is Ok,
    {
        Ok(())
    }

    fn send_to(&self, _peer_id: &str, _message: Vec<u8>) -> (done: NodeResult<()>)
        ensures
            done is Ok,
    {
        Ok(())
    }
}

} // verus!
