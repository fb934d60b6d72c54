//! The run-time linker: it lays named blobs out in one buffer and patches the
//! references between them.

pub mod bytes;
pub mod laws;
pub mod linker;
pub mod model;

pub use linker::{JitLinker, Link, LinkError};
