//! The logic operation applied when blending is off.
use vstd::prelude::*;

use super::regs::GPUREG_LOGIC_OP;
use super::{single_write, reg_write, GpuCmd};

verus! {

/// A logic operation of source `s` and destination `d`.
#[derive(Clone, Copy, Debug, PartialEq, Eq, Structural)]
pub enum LogicOp {
    Clear,
    And,
    ReverseAnd,
    Copy,
    SetOnes,
    InvertedCopy,
    Noop,
    Invert,
    Nand,
    Or,
    Nor,
    Xor,
    Equivalent,
    InvertedAnd,
    ReverseOr,
    InvertedOr,
}

impl LogicOp {
    /// The field value the hardware expects.
    pub open spec fn spec_code(self) -> u32 {
        match self {
            LogicOp::Clear => 0,
            LogicOp::And => 1,
            LogicOp::ReverseAnd => 2,
            LogicOp::Copy => 3,
            LogicOp::SetOnes => 4,
            LogicOp::InvertedCopy => 5,
            LogicOp::Noop => 6,
            LogicOp::Invert => 7,
            LogicOp::Nand => 8,
            LogicOp::Or => 9,
            LogicOp::Nor => 10,
            LogicOp::Xor => 11,
            LogicOp::Equivalent => 12,
            LogicOp::InvertedAnd => 13,
            LogicOp::ReverseOr => 14,
            LogicOp::InvertedOr => 15,
        }
    }

    pub fn code(self) -> (r: u32)
        ensures
            r == self.spec_code(),
            r <= 15,
    {
        match self {
            LogicOp::Clear => 0,
            LogicOp::And => 1,
            LogicOp::ReverseAnd => 2,
            LogicOp::Copy => 3,
            LogicOp::SetOnes => 4,
            LogicOp::InvertedCopy => 5,
            LogicOp::Noop => 6,
            LogicOp::Invert => 7,
            LogicOp::Nand => 8,
            LogicOp::Or => 9,
            LogicOp::Nor => 10,
            LogicOp::Xor => 11,
            LogicOp::Equivalent => 12,
            LogicOp::InvertedAnd => 13,
            LogicOp::ReverseOr => 14,
            LogicOp::InvertedOr => 15,
        }
    }
}

impl GpuCmd for LogicOp {
    open spec fn words(self) -> Seq<u32> {
        single_write(GPUREG_LOGIC_OP, self.spec_code())
    }

    fn cmd(self) -> (r: Vec<u32>) {
        reg_write(GPUREG_LOGIC_OP, self.code())
    }
}

} // verus!
