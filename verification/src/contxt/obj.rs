//! What goes into a relocatable object file: declarations, symbol contents and
//! links, and the plan by which they are written.

pub mod decl;
pub mod error;
pub mod link;
pub mod object_builder;
pub mod plan;

pub use decl::{Decl, Scope};
pub use error::ObjectError;
pub use link::Link;
pub use object_builder::{BinFormat, ObjectBuilder};
pub use plan::{ObjectPlan, RelocPlan, SectionKind, SymbolKind, SymbolPlan, SymbolScope};
