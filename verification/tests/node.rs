use faic_node::blockchain::{Block, Blockchain, Transaction};
use faic_node::error::{NodeError, NodeResult};
use faic_node::network::peer::Peer;
use faic_node::network::server::NetworkServer;
use faic_node::network::{NetworkService, NodeInfo, NodeType};

fn node_info() -> NodeInfo {
    NodeInfo {
        id: "node-1".to_string(),
        address: "127.0.0.1:9000".to_string(),
        node_type: NodeType::Validator,
        models: vec!["m".to_string()],
        latency: 12,
    }
}

#[test]
fn node_error_text() {
    assert_eq!(NodeError::BlockchainError("b".to_string()).to_string(), "Blockchain error: b");
    assert_eq!(NodeError::NetworkError("down".to_string()).to_string(), "Network error: down");
    assert_eq!(NodeError::WalletError("w".to_string()).to_string(), "Wallet error: w");
    assert_eq!(
        NodeError::ValidationError("bad input".to_string()).to_string(),
        "Validation error: bad input"
    );
    assert_eq!(NodeError::StorageError(String::new()).to_string(), "Storage error: ");
}

#[test]
fn node_result_carries_a_node_error() {
    let failed: NodeResult<u8> = Err(NodeError::StorageError("full".to_string()));
    assert_eq!(failed.unwrap_err().to_string(), "Storage error: full");
}

#[test]
fn peer_keeps_its_info() {
    let mut peer = Peer::new(node_info());
    assert_eq!(peer.info.id, "node-1");
    assert_eq!(peer.info.latency, 12);
    assert!(peer.connect().is_ok());
    assert!(peer.disconnect().is_ok());
    assert_eq!(peer.info.address, "127.0.0.1:9000");
    assert!(matches!(peer.info.node_type, NodeType::Validator));
}

#[test]
fn server_operations_succeed() {
    let server = NetworkServer::new();
    assert!(server.connect("127.0.0.1:9000").is_ok());
    assert!(server.broadcast(vec![1, 2, 3]).is_ok());
    assert!(server.send_to("node-1", Vec::new()).is_ok());
    assert!(server.disconnect().is_ok());
}

#[test]
fn chain_holds_blocks_and_transactions() {
    let transaction = Transaction {
        from: "a".to_string(),
        to: "b".to_string(),
        amount: 5,
        timestamp: 1_700_000_000,
        signature: None,
    };
    let chain = Blockchain { blocks: vec![Block {}], pending_transactions: vec![transaction.clone()] };
    assert_eq!(chain.blocks.len(), 1);
    assert_eq!(chain.pending_transactions[0].amount, 5);
    assert_eq!(transaction.from, "a");
}
