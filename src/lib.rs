use vstd::prelude::*;

pub mod command;
pub mod config;
pub mod errors;
pub mod evaluation;
pub mod market;
pub mod sma;
pub mod supervision;
pub mod text;

verus! {

} // verus!
