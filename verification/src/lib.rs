//! Code generation and just-in-time linking for x86-64.
//!
//! Functions are written in a small typed intermediate representation, lowered to
//! machine instructions under a calling convention, linked with their data into one
//! position-correct image, and handed to an execution engine.
//!
//! - [`ir`] holds the kinds of values, the variables, the nodes and their lowering.
//! - [`target`] holds the registers, the instructions and their encoder, the
//!   calling conventions, and a model of what the instructions compute.
//! - [`func`] holds functions and the buffers that their code is assembled in.
//! - [`contxt`] holds the context of a session, the linker, the course of a call
//!   of a linked image, and what goes into an object file.
//! - [`naming`] holds the naming convention for exported symbols.
//!
//! Every function is verified against its contract. The contracts speak of plain
//! values: a module's `model` and the views of its types say what they are. The
//! bytes of an instruction are the encoder's; they are named, not described.

pub mod contxt;
pub mod func;
pub mod ir;
pub mod naming;
pub mod target;
