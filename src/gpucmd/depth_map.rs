//! Depth mapping: enable, scale and offset.
use vstd::prelude::*;

use super::regs::{GPUREG_DEPTHMAP_ENABLE, GPUREG_DEPTHMAP_OFFSET, GPUREG_DEPTHMAP_SCALE};
use super::{single_write, reg_write, Cons, GpuCmd, GpuCmdDisable, GpuCmdByMut, Root};

verus! {

/// Depth mapping on; its disabling form turns it off.
#[derive(Clone, Copy, PartialEq, Eq)]
pub struct Enabled;

impl GpuCmd for Enabled {
    open spec fn words(self) -> Seq<u32> {
        single_write(GPUREG_DEPTHMAP_ENABLE, 1u32)
    }

    fn cmd(self) -> (r: Vec<u32>) {
        reg_write(GPUREG_DEPTHMAP_ENABLE, 1)
    }
}

impl GpuCmdDisable for Enabled {
    open spec fn disable_words(self) -> Seq<u32> {
        single_write(GPUREG_DEPTHMAP_ENABLE, 0)
    }

    fn cmd_disable(self) -> (r: Vec<u32>) {
        reg_write(GPUREG_DEPTHMAP_ENABLE, 0)
    }
}

/// The depth scale, as a float24 value.
#[derive(Clone, Copy)]
pub struct Scale(pub u32);

impl GpuCmd for Scale {
    open spec fn words(self) -> Seq<u32> {
        single_write(GPUREG_DEPTHMAP_SCALE, self.0)
    }

    fn cmd(self) -> (r: Vec<u32>) {
        reg_write(GPUREG_DEPTHMAP_SCALE, self.0)
    }
}

/// The depth offset, as a float24 value.
#[derive(Clone, Copy)]
pub struct Offset(pub u32);

impl GpuCmd for Offset {
    open spec fn words(self) -> Seq<u32> {
        single_write(GPUREG_DEPTHMAP_OFFSET, self.0)
    }

    fn cmd(self) -> (r: Vec<u32>) {
        reg_write(GPUREG_DEPTHMAP_OFFSET, self.0)
    }
}

/// Depth mapping on, with the given float24 scale and offset.
#[allow(non_snake_case)]
pub fn EnabledScaleOffset(scale: u32, offset: u32) -> (r: Cons<Cons<Cons<Root, Enabled>, Scale>, Offset>)
    ensures
        r.emitted() == single_write(GPUREG_DEPTHMAP_ENABLE, 1) + single_write(
            GPUREG_DEPTHMAP_SCALE,
            scale,
        ) + single_write(GPUREG_DEPTHMAP_OFFSET, offset),
{
    Root.add(Enabled).add(Scale(scale)).add(Offset(offset))
}

} // verus!
