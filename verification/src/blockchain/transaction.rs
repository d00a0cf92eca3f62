use vstd::prelude::*;

verus! {

/// A transfer as the chain records it. The amount is a count of units.
#[derive(Debug, Clone)]
pub struct Transaction {
    pub from: String,
    pub to: String,
    pub amount: u64,
    pub timestamp: u64,
    pub signature: Option<String>,
}

} // verus!
