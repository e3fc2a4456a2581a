//! A custodial lottery: participants pay a fixed ticket price into a pool,
//! one of them is drawn as the winner once the pool closes, and the winner
//! claims the pool net of a protocol fee that goes to a vault.
use vstd::prelude::*;

pub mod clock;
pub mod draw;
pub mod errors;
pub mod instructions;
pub mod laws;
pub mod pubkey;
pub mod state;

verus! {

} // verus!
