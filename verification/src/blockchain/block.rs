use vstd::prelude::*;

verus! {

/// A block of the chain. It carries no data.
#[derive(Debug, Clone)]
pub struct Block {}

} // verus!
