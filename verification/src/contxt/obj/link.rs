//! Links between the symbols of an object file.

use vstd::prelude::*;

verus! {

/// A reference from the symbol `from`, `at` bytes into it, to the symbol `to`.
#[derive(Debug, Clone, PartialEq, Eq, PartialOrd, Ord)]
pub struct Link {
    pub from: String,
    pub to: String,
    pub at: usize,
}

/// A link as plain values.
pub struct LinkView {
    pub from: Seq<char>,
    pub to: Seq<char>,
    pub at: nat,
}

impl View for Link {
    type V = LinkView;

    open spec fn view(&self) -> LinkView {
        LinkView { from: self.from@, to: self.to@, at: self.at as nat }
    }
}

} // verus!
