//! The holder of a native function.

use vstd::prelude::*;

verus! {

/// Holds a native function, ready to be called.
pub struct ExecEngine<T> {
    pub inner: T,
}

} // verus!
