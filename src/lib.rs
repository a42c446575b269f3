use vstd::prelude::*;

pub mod cascade;
pub mod classify;
pub mod discover;
pub mod scan;
pub mod text;

verus! {

} // verus!
