//! The typed intermediate representation and its lowering.

pub mod compile;
pub mod laws;
pub mod node;
pub mod types;
pub mod var;
