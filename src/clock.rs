use vstd::prelude::*;

verus! {

/// The ledger's clock as an operation reads it: the current round counter
/// and the current wall-clock time in seconds.
#[derive(Debug, Clone, Copy, PartialEq, Eq, Structural)]
pub struct Clock {
    pub slot: u64,
    pub unix_timestamp: i64,
}

} // verus!
