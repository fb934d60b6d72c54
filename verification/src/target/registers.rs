//! The registers of x86-64 that generated code uses.

use vstd::prelude::*;

verus! {

/// The kind and width of a register.
#[derive(Debug, Clone, Copy, PartialEq, Eq, Structural)]
pub enum RegClass {
    /// The low byte of a general-purpose register.
    Gpr8,
    /// The low word of a general-purpose register.
    Gpr16,
    /// The low double word of a general-purpose register.
    Gpr32,
    /// A whole general-purpose register.
    Gpr64,
    /// A vector register, which holds floating-point numbers.
    Xmm,
    /// The instruction pointer, as the base of an address.
    Ip,
}

/// The index of the accumulator among the general-purpose registers.
pub const AX: u8 = 0;

/// The index of the counter register.
pub const CX: u8 = 1;

/// The index of the data register.
pub const DX: u8 = 2;

/// The index of the base register.
pub const BX: u8 = 3;

/// The index of the stack pointer.
pub const SP: u8 = 4;

/// The index of the frame pointer.
pub const BP: u8 = 5;

/// The index of the source index register.
pub const SI: u8 = 6;

/// The index of the destination index register.
pub const DI: u8 = 7;

/// The index of the first of the eight numbered registers.
pub const R8: u8 = 8;

/// The index of the second of the eight numbered registers.
pub const R9: u8 = 9;

/// A register: a class, and the index by which the hardware knows it in that
/// class, from 0 to 15.
#[derive(Debug, Clone, Copy, PartialEq, Eq, Structural)]
pub struct Reg {
    pub class: RegClass,
    pub index: u8,
}

impl Reg {
    /// Whether there is such a register.
    pub open spec fn wf(self) -> bool {
        self.index < 16 && (self.class == RegClass::Ip ==> self.index == 0)
    }

    /// The number by which the encoder knows this register: the registers of a
    /// class are numbered in the order of their indices, but for the byte
    /// registers, where the four high bytes of old stand between index 3 and 4.
    pub open spec fn spec_number(self) -> int {
        match self.class {
            RegClass::Gpr8 => if self.index < 4 {
                1 + self.index
            } else {
                5 + self.index
            },
            RegClass::Gpr16 => 21 + self.index,
            RegClass::Gpr32 => 37 + self.index,
            RegClass::Gpr64 => 53 + self.index,
            RegClass::Ip => 70,
            RegClass::Xmm => 77 + self.index,
        }
    }

    /// The number by which the encoder knows this register.
    pub fn number(&self) -> (n: u8)
        requires
            self.wf(),
        ensures
            n == self.spec_number(),
    {
        match self.class {
            RegClass::Gpr8 => if self.index < 4 {
                1 + self.index
            } else {
                5 + self.index
            },
            RegClass::Gpr16 => 21 + self.index,
            RegClass::Gpr32 => 37 + self.index,
            RegClass::Gpr64 => 53 + self.index,
            RegClass::Ip => 70,
            RegClass::Xmm => 77 + self.index,
        }
    }
}

/// The stack pointer.
pub open spec fn stack_pointer() -> Reg {
    Reg { class: RegClass::Gpr64, index: SP }
}

/// The frame pointer.
pub open spec fn frame_pointer() -> Reg {
    Reg { class: RegClass::Gpr64, index: BP }
}

} // verus!
