use vstd::prelude::*;

pub mod abi;
pub mod cli;
pub mod dart;
pub mod ir;
pub mod python;
pub mod text;

verus! {
} // verus!
