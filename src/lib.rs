use vstd::prelude::*;

pub mod domain;
pub mod json;
pub mod simulation;
pub mod api;
pub mod app;

verus! {

} // verus!
