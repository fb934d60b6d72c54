//! The nodes of the intermediate representation.

use vstd::prelude::*;
use crate::ir::var::VarGen;

verus! {

/// The kinds of binary arithmetic.
#[derive(Debug, Clone, Copy, PartialEq, Eq, Structural)]
pub enum BinKind {
    Add,
    Sub,
    Mul,
    Div,
}

/// Binary arithmetic on two variables. The result takes the place of `left`.
#[derive(Debug, Clone, Copy, PartialEq, Eq, Structural)]
pub struct BinaryOp {
    pub kind: BinKind,
    pub left: VarGen,
    pub right: VarGen,
}

/// What a function returns: a number, a variable or the result of arithmetic.
/// A floating-point number is given by its bits.
#[derive(Debug, Clone, Copy, PartialEq, Eq, Structural)]
pub enum Operand {
    Int32(i32),
    Int64(i64),
    Float32(u32),
    Float64(u64),
    Var(VarGen),
    Op(BinaryOp),
}

/// A node: one step of a function.
#[derive(Debug, Clone, Copy, PartialEq, Eq, Structural)]
pub enum Node {
    /// Puts the operand where results go, and returns.
    Return(Operand),
    /// Computes, and leaves the result in the place of the left operand.
    BinaryOp(BinaryOp),
}

impl BinaryOp {
    /// Arithmetic of the kind `kind` on `left` and `right`.
    pub fn new(kind: BinKind, left: VarGen, right: VarGen) -> (op: Self)
        ensures
            op == (BinaryOp { kind, left, right }),
    {
        BinaryOp { kind, left, right }
    }
}

} // verus!
