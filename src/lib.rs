use vstd::prelude::*;

pub mod coordinator;
pub mod error;
pub mod guarantees;
pub mod payload;
pub mod session;
pub mod task;
pub mod user;

verus! {

} // verus!
