// A token-for-unit swap that withholds a percentage fee: the fee arithmetic,
// the planned ledger legs, and a fail-fast step machine that hands the legs
// out one at a time to whoever performs them.
use vstd::prelude::*;

pub mod accounts;
pub mod error;
pub mod fee;
pub mod ledger;
pub mod orchestrator;
pub mod transfer;

verus! {

} // verus!
