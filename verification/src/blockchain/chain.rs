use super::{Block, Transaction};
use vstd::prelude::*;

verus! {

/// The blocks so far, and the transactions that wait for one.
pub struct Blockchain {
    pub blocks: Vec<Block>,
    pub pending_transactions: Vec<Transaction>,
}

} // verus!
