//! An object pool for expensive resources such as network connections.
//!
//! The pool grows lazily up to a hard cap, hands returned resources out again
//! in the order they came back, and keeps its counters exact whatever point
//! an acquisition is abandoned at. `pool` holds the state machine that takes
//! every decision, `errors` the error taxonomy and the classification of
//! phase outcomes, and `laws` what is proved of the state machine as a whole.
use vstd::prelude::*;

pub mod config;
pub mod errors;
pub mod laws;
pub mod pool;

verus! {

} // verus!
