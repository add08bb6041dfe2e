//! The addressing modes an instruction can name and the predicates a
//! conditional branch can test.

use crate::register::{StatusFlags, StatusRegister};
use vstd::prelude::*;

verus! {

/// The closed set of addressing modes.  Operand words are little-endian, as
/// they appear in machine code; each mode carries a fixed operand-byte count
/// used for program-counter advancement.
#[derive(Clone, Copy, Debug, PartialEq, Eq, Structural)]
pub enum AddressingModes {
    /// OPC A: the operand is the accumulator itself.
    Accumulator,
    /// OPC $LLHH: the operand is the two-byte address $HHLL.
    Absolute,
    /// OPC $LLHH,X: the absolute address plus the X register, with carry.
    AbsoluteXIndex,
    /// OPC $LLHH,Y: the absolute address plus the Y register, with carry.
    AbsoluteYIndex,
    /// OPC #$BB: the operand is the byte $BB itself.
    Immediate,
    /// OPC: no operand.
    Implied,
    /// OPC ($LLHH): the operand bytes point at the two-byte effective address.
    Indirect,
    /// OPC ($LL,X): X is added to the zero-page byte $LL, without carry, to
    /// name the location of the two-byte effective address.
    PreIndexIndirect,
    /// OPC ($LL),Y: the byte stored at zero-page location $LL plus the Y
    /// register, with carry, is the effective address.
    PostIndexIndirect,
    /// OPC $BB: branching only; the target is the counter plus the signed
    /// displacement $BB.
    Relative,
    /// OPC $LL: a zero-page address; the high byte is forced to zero.
    ZeroPage,
    /// OPC $LL,X: a zero-page address offset by X, added without carry.
    ZeroPageXIndex,
    /// OPC $LL,Y: a zero-page address offset by Y, added without carry.
    ZeroPageYIndex,
}

impl AddressingModes {
    /// How many operand bytes follow the opcode in this mode.
    pub open spec fn spec_parameter_bytes(self) -> u16 {
        match self {
            AddressingModes::Accumulator => 0,
            AddressingModes::Absolute => 2,
            AddressingModes::AbsoluteXIndex => 2,
            AddressingModes::AbsoluteYIndex => 2,
            AddressingModes::Immediate => 1,
            AddressingModes::Implied => 0,
            AddressingModes::Indirect => 2,
            AddressingModes::PreIndexIndirect => 1,
            AddressingModes::PostIndexIndirect => 1,
            AddressingModes::Relative => 1,
            AddressingModes::ZeroPage => 1,
            AddressingModes::ZeroPageXIndex => 1,
            AddressingModes::ZeroPageYIndex => 1,
        }
    }

    /// Whether the mode resolves to a memory address.  Accumulator and
    /// Implied operate on a register directly, not on memory.
    pub open spec fn spec_resolves_to_address(self) -> bool {
        self != AddressingModes::Accumulator && self != AddressingModes::Implied
    }

    /// How many operand bytes follow the opcode in this mode.
    pub fn parameter_bytes(&self) -> (r: u16)
        ensures
            r == self.spec_parameter_bytes(),
    {
        match self {
            Self::Accumulator => 0,
            Self::Absolute => 2,
            Self::AbsoluteXIndex => 2,
            Self::AbsoluteYIndex => 2,
            Self::Immediate => 1,
            Self::Implied => 0,
            Self::Indirect => 2,
            Self::PreIndexIndirect => 1,
            Self::PostIndexIndirect => 1,
            Self::Relative => 1,
            Self::ZeroPage => 1,
            Self::ZeroPageXIndex => 1,
            Self::ZeroPageYIndex => 1,
        }
    }

    /// The mode's name, for drivers and debuggers.
    pub fn name(&self) -> (r: String)
        ensures
            self == AddressingModes::Accumulator ==> r@ == "Accumulator"@,
            self == AddressingModes::Absolute ==> r@ == "Absolute"@,
            self == AddressingModes::AbsoluteXIndex ==> r@ == "AbsoluteXIndex"@,
            self == AddressingModes::AbsoluteYIndex ==> r@ == "AbsoluteYIndex"@,
            self == AddressingModes::Immediate ==> r@ == "Immediate"@,
            self == AddressingModes::Implied ==> r@ == "Implied"@,
            self == AddressingModes::Indirect ==> r@ == "Indirect"@,
            self == AddressingModes::PreIndexIndirect ==> r@ == "PreIndexIndirect"@,
            self == AddressingModes::PostIndexIndirect ==> r@ == "PostIndexIndirect"@,
            self == AddressingModes::Relative ==> r@ == "Relative"@,
            self == AddressingModes::ZeroPage ==> r@ == "ZeroPage"@,
            self == AddressingModes::ZeroPageXIndex ==> r@ == "ZeroPageXIndex"@,
            self == AddressingModes::ZeroPageYIndex ==> r@ == "ZeroPageYIndex"@,
    {
        let string = match self {
            Self::Accumulator => "Accumulator",
            Self::Absolute => "Absolute",
            Self::AbsoluteXIndex => "AbsoluteXIndex",
            Self::AbsoluteYIndex => "AbsoluteYIndex",
            Self::Immediate => "Immediate",
            Self::Implied => "Implied",
            Self::Indirect => "Indirect",
            Self::PreIndexIndirect => "PreIndexIndirect",
            Self::PostIndexIndirect => "PostIndexIndirect",
            Self::Relative => "Relative",
            Self::ZeroPage => "ZeroPage",
            Self::ZeroPageXIndex => "ZeroPageXIndex",
            Self::ZeroPageYIndex => "ZeroPageYIndex",
        };
        string.to_owned()
    }
}

/// The closed set of conditional-branch kinds.  Each one tests exactly one
/// status flag against set or clear.
#[derive(Clone, Copy, Debug, PartialEq, Eq, Structural)]
pub enum BranchMode {
    BMI,
    BNE,
    BPL,
    BVC,
    BVS,
    BCS,
    BCC,
    BEQ,
}

impl BranchMode {
    /// Whether the branch is taken under the given status register.
    pub open spec fn spec_taken(self, flag_reg: StatusRegister) -> bool {
        match self {
            BranchMode::BEQ => flag_reg.spec_zero(),
            BranchMode::BCC => !flag_reg.spec_carry(),
            BranchMode::BCS => flag_reg.spec_carry(),
            BranchMode::BVC => !flag_reg.spec_overflow(),
            BranchMode::BVS => flag_reg.spec_overflow(),
            BranchMode::BPL => !flag_reg.spec_negative(),
            BranchMode::BNE => !flag_reg.spec_zero(),
            BranchMode::BMI => flag_reg.spec_negative(),
        }
    }

    /// Whether the branch is taken under the given status register.
    pub fn verify(&self, flag_reg: &StatusRegister) -> (r: bool)
        ensures
            r == self.spec_taken(*flag_reg),
    {
        match self {
            Self::BEQ => flag_reg.check_flag(StatusFlags::Zero),
            Self::BCC => !flag_reg.check_flag(StatusFlags::Carry),
            Self::BCS => flag_reg.check_flag(StatusFlags::Carry),
            Self::BVC => !flag_reg.check_flag(StatusFlags::Overflow),
            Self::BVS => flag_reg.check_flag(StatusFlags::Overflow),
            Self::BPL => !flag_reg.check_flag(StatusFlags::Negative),
            Self::BNE => !flag_reg.check_flag(StatusFlags::Zero),
            Self::BMI => flag_reg.check_flag(StatusFlags::Negative),
        }
    }
}

} // verus!
