//! Face culling.
use vstd::prelude::*;

use super::regs::GPUREG_FACECULLING_CONFIG;
use super::{single_write, reg_write, GpuCmd};

verus! {

/// No face is culled.
#[derive(Clone, Copy)]
pub struct No;

impl GpuCmd for No {
    open spec fn words(self) -> Seq<u32> {
        single_write(GPUREG_FACECULLING_CONFIG, 0u32)
    }

    fn cmd(self) -> (r: Vec<u32>) {
        reg_write(GPUREG_FACECULLING_CONFIG, 0)
    }
}

/// Counter-clockwise faces are culled.
#[derive(Clone, Copy)]
pub struct FrontCCW;

impl GpuCmd for FrontCCW {
    open spec fn words(self) -> Seq<u32> {
        single_write(GPUREG_FACECULLING_CONFIG, 1u32)
    }

    fn cmd(self) -> (r: Vec<u32>) {
        reg_write(GPUREG_FACECULLING_CONFIG, 1)
    }
}

/// Clockwise faces are culled.
#[derive(Clone, Copy)]
pub struct BackCCW;

impl GpuCmd for BackCCW {
    open spec fn words(self) -> Seq<u32> {
        single_write(GPUREG_FACECULLING_CONFIG, 2u32)
    }

    fn cmd(self) -> (r: Vec<u32>) {
        reg_write(GPUREG_FACECULLING_CONFIG, 2)
    }
}

} // verus!
