//! Declarations of symbols.

use vstd::prelude::*;

verus! {

/// Who sees a symbol.
#[derive(Debug, Clone, Copy, PartialEq, Eq, PartialOrd, Ord, Structural)]
pub enum Scope {
    /// Defined elsewhere and used here.
    Import,
    /// Defined here and seen by other objects.
    Export,
    /// Defined here and seen here only.
    Private,
}

/// What a symbol is.
#[derive(Debug, Clone, Copy, PartialEq, Eq, PartialOrd, Ord, Structural)]
pub enum Decl {
    /// A function.
    Function(Scope),
    /// Uninitialized data.
    UData(Scope),
    /// Read-only data.
    RData(Scope),
}

impl Decl {
    /// Who sees the declared symbol.
    pub open spec fn spec_scope(self) -> Scope {
        match self {
            Decl::Function(scope) => scope,
            Decl::UData(scope) => scope,
            Decl::RData(scope) => scope,
        }
    }

    /// Who sees the declared symbol.
    pub fn scope(&self) -> (scope: Scope)
        ensures
            scope == self.spec_scope(),
    {
        match self {
            Decl::Function(scope) => *scope,
            Decl::UData(scope) => *scope,
            Decl::RData(scope) => *scope,
        }
    }
}

} // verus!
