//! Verified core of a lens over concentrated-liquidity pools: the decoding of
//! DEX identifiers, the planning of ephemeral lens calls, and the selection of
//! populated ticks inside a tick range.
use vstd::prelude::*;

pub mod amm;
pub mod pool_lens;

verus! {

} // verus!
