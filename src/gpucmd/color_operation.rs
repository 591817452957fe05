//! Fragment operation mode and blend/logic-op selection.
use vstd::prelude::*;

use super::regs::GPUREG_COLOR_OPERATION;
use super::{single_write, reg_write, GpuCmd};

verus! {

/// The fragment operation mode.
#[derive(Clone, Copy, Debug, PartialEq, Eq, Structural)]
pub enum FragOp {
    Default,
    Gas,
    Shadow,
}

impl FragOp {
    /// The field value the hardware expects.
    pub open spec fn spec_code(self) -> u32 {
        match self {
            FragOp::Default => 0,
            FragOp::Gas => 1,
            FragOp::Shadow => 2,
        }
    }

    pub fn code(self) -> (r: u32)
        ensures
            r == self.spec_code(),
            r <= 2,
    {
        match self {
            FragOp::Default => 0,
            FragOp::Gas => 1,
            FragOp::Shadow => 2,
        }
    }
}

/// Whether colors are blended or combined by a logic op.
#[derive(Clone, Copy, Debug, PartialEq, Eq, Structural)]
pub enum BlendMode {
    LogicOp,
    Blend,
}

impl BlendMode {
    /// The field value the hardware expects.
    pub open spec fn spec_code(self) -> u32 {
        match self {
            BlendMode::LogicOp => 0,
            BlendMode::Blend => 1,
        }
    }

    pub fn code(self) -> (r: u32)
        ensures
            r == self.spec_code(),
            r <= 1,
    {
        match self {
            BlendMode::LogicOp => 0,
            BlendMode::Blend => 1,
        }
    }
}

/// Fragment mode and blend mode; the third byte is the fixed value 0xE4.
#[derive(Clone, Copy)]
pub struct ColorOperation(pub FragOp, pub BlendMode);

impl ColorOperation {
    pub open spec fn spec_param(self) -> u32 {
        self.0.spec_code() | (self.1.spec_code() << 8u32) | 0x00E4_0000
    }
}

impl GpuCmd for ColorOperation {
    open spec fn words(self) -> Seq<u32> {
        single_write(GPUREG_COLOR_OPERATION, self.spec_param())
    }

    fn cmd(self) -> (r: Vec<u32>) {
        reg_write(GPUREG_COLOR_OPERATION, self.0.code() | (self.1.code() << 8u32) | 0x00E4_0000)
    }
}

} // verus!
