//! Primitive assembly.
use vstd::prelude::*;

use super::regs::{GPUREG_PRIMITIVE_CONFIG, GPUREG_RESTART_PRIMITIVE};
use super::{single_write, reg_write, GpuCmd};

verus! {

/// How vertices form primitives.
#[derive(Clone, Copy, Debug, PartialEq, Eq, Structural)]
pub enum Mode {
    Triangles,
    TriangleStrip,
    TriangleFan,
    GeometryPrimitive,
}

impl Mode {
    /// The field value the hardware expects.
    pub open spec fn spec_code(self) -> u32 {
        match self {
            Mode::Triangles => 0,
            Mode::TriangleStrip => 1,
            Mode::TriangleFan => 2,
            Mode::GeometryPrimitive => 3,
        }
    }

    pub fn code(self) -> (r: u32)
        ensures
            r == self.spec_code(),
            r <= 3,
    {
        match self {
            Mode::Triangles => 0,
            Mode::TriangleStrip => 1,
            Mode::TriangleFan => 2,
            Mode::GeometryPrimitive => 3,
        }
    }
}

/// The number of shader outputs (minus one) and the primitive mode.
#[derive(Clone, Copy)]
pub struct Config {
    pub outmap_total_minus_1: u32,
    pub primitive_mode: Mode,
}

impl GpuCmd for Config {
    open spec fn words(self) -> Seq<u32> {
        single_write(GPUREG_PRIMITIVE_CONFIG, self.outmap_total_minus_1 | (self.primitive_mode.spec_code() << 8u32))
    }

    fn cmd(self) -> (r: Vec<u32>) {
        reg_write(GPUREG_PRIMITIVE_CONFIG, self.outmap_total_minus_1 | (self.primitive_mode.code() << 8u32))
    }
}

/// Restarts the current strip or fan.
#[derive(Clone, Copy)]
pub struct Restart;

impl GpuCmd for Restart {
    open spec fn words(self) -> Seq<u32> {
        single_write(GPUREG_RESTART_PRIMITIVE, 1u32)
    }

    fn cmd(self) -> (r: Vec<u32>) {
        reg_write(GPUREG_RESTART_PRIMITIVE, 1)
    }
}

} // verus!
