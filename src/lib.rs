//! A client for decentralised price-feed contracts: the decisions of its
//! construction and query protocol, the classification of bounded remote
//! calls, and the exact decimal rendering of raw fixed-point answers.
use vstd::prelude::*;

pub mod client;
pub mod decimal;
pub mod error;
pub mod round;

verus! {

} // verus!
