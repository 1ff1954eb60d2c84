//! Oracle normalisation and the funding-rate lifecycle of a perpetual-futures
//! clearing house, with every rule stated as a contract and proved.

pub mod error;
pub mod math;
pub mod state;
pub mod controller;
