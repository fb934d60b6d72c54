//! Linking and execution of generated code.

pub mod contxt;
pub mod exec_engine;
pub mod jit;
pub mod laws;
pub mod link;
pub mod obj;
pub mod object;
