//! Declarative session runner: a validated configuration document is resolved
//! into an immutable session plan, and a step scheduler walks that plan under
//! a hard concurrency bound.

pub mod create;
pub mod details;
pub mod job;
pub mod modifiers;
pub mod scheduler;
pub mod session;
pub mod values;

use vstd::prelude::*;

verus! {

/// The largest total weight that a set of randomly selected jobs may carry.
pub const WEIGHT_LIMIT: u64 = 100;

} // verus!
