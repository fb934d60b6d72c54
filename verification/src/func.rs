//! Functions: their nodes, and the buffers that their code is assembled in.

pub mod asmfunc;
pub mod func;
pub mod laws;

pub use asmfunc::AsmFunction;
pub use func::Function;
