//! The target machine: its registers, its instructions, their encoder, and its
//! calling conventions.

pub mod call_conv;
pub mod encoder;
pub mod isa;
pub mod machine;
pub mod registers;
pub mod triple;
