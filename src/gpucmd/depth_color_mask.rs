//! Depth test and color/depth write masks.
use vstd::prelude::*;

use super::regs::GPUREG_DEPTH_COLOR_MASK;
use super::{single_write, reg_write, GpuCmd};

verus! {

/// Comparison of the depth test.
#[derive(Clone, Copy, Debug, PartialEq, Eq, Structural)]
pub enum Function {
    Never,
    Always,
    Equal,
    NotEqual,
    LessThan,
    LessThanOrEqual,
    GreaterThan,
    GreaterThanOrEqual,
}

impl Function {
    /// The field value the hardware expects.
    pub open spec fn spec_code(self) -> u32 {
        match self {
            Function::Never => 0,
            Function::Always => 1,
            Function::Equal => 2,
            Function::NotEqual => 3,
            Function::LessThan => 4,
            Function::LessThanOrEqual => 5,
            Function::GreaterThan => 6,
            Function::GreaterThanOrEqual => 7,
        }
    }

    pub fn code(self) -> (r: u32)
        ensures
            r == self.spec_code(),
            r <= 7,
    {
        match self {
            Function::Never => 0,
            Function::Always => 1,
            Function::Equal => 2,
            Function::NotEqual => 3,
            Function::LessThan => 4,
            Function::LessThanOrEqual => 5,
            Function::GreaterThan => 6,
            Function::GreaterThanOrEqual => 7,
        }
    }
}

/// Depth test and write masks. A disabled test with depth writes on behaves
/// as the function `Always`.
#[derive(Clone, Copy, Debug, PartialEq, Eq, Structural)]
pub struct DepthColorMask {
    pub enabled: bool,
    pub function: Function,
    pub red_write: bool,
    pub green_write: bool,
    pub blue_write: bool,
    pub alpha_write: bool,
    pub depth_write: bool,
}

pub open spec fn bit(b: bool, v: u32) -> u32 {
    if b {
        v
    } else {
        0
    }
}

fn bit_of(b: bool, v: u32) -> (r: u32)
    ensures
        r == bit(b, v),
{
    if b {
        v
    } else {
        0
    }
}

impl DepthColorMask {
    /// Enable at bit 0, function at 4..8, red/green/blue/alpha/depth writes at 8..13.
    pub open spec fn spec_param(self) -> u32 {
        bit(self.enabled, 1) | (self.function.spec_code() << 4u32) | bit(self.red_write, 0x100)
            | bit(self.green_write, 0x200) | bit(self.blue_write, 0x400) | bit(
            self.alpha_write,
            0x800,
        ) | bit(self.depth_write, 0x1000)
    }

    pub fn param(self) -> (r: u32)
        ensures
            r == self.spec_param(),
    {
        bit_of(self.enabled, 1) | (self.function.code() << 4u32) | bit_of(self.red_write, 0x100)
            | bit_of(self.green_write, 0x200) | bit_of(self.blue_write, 0x400) | bit_of(
            self.alpha_write,
            0x800,
        ) | bit_of(self.depth_write, 0x1000)
    }
}

impl GpuCmd for DepthColorMask {
    open spec fn words(self) -> Seq<u32> {
        single_write(GPUREG_DEPTH_COLOR_MASK, self.spec_param())
    }

    fn cmd(self) -> (r: Vec<u32>) {
        reg_write(GPUREG_DEPTH_COLOR_MASK, self.param())
    }
}

} // verus!
