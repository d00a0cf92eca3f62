//! What a node knows of its peers, and the service that reaches them.

pub mod peer;
pub mod server;

use crate::error::NodeResult;
use vstd::prelude::*;

verus! {

/// What a node tells of itself.
#[derive(Debug)]
pub struct NodeInfo {
    pub id: String,
    pub address: String,
    pub node_type: NodeType,
    pub models: Vec<String>,
    pub latency: u64,
}

/// The part that a node plays in the network.
#[derive(Debug)]
pub enum NodeType {
    Validator,
    Compute,
    Router,
}

/// The operations of a transport between nodes.
pub trait NetworkService {
    fn connect(&self, address: &str) -> NodeResult<()>;

    fn disconnect(&self) -> NodeResult<()>;

    fn broadcast(&self, message: Vec<u8>) -> NodeResult<()>;

    fn send_to(&self, peer_id: &str, message: Vec<u8>) -> NodeResult<()>;
}

} // verus!
