//! The containers of the chain. They hold data and have no rules of their own.

pub mod block;
pub mod chain;
pub mod transaction;

pub use block::Block;
pub use chain::Blockchain;
pub use transaction::Transaction;
