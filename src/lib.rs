use vstd::prelude::*;

pub mod controller;
pub mod exceptions;
pub mod executor;
pub mod kernel;
pub mod keyboard;
pub mod queue;
pub mod vectors;

verus! {

} // verus!
