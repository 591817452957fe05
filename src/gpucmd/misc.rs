//! Drawing-related single writes.
use vstd::prelude::*;

use super::regs::{
    GPUREG_FRAMEBUFFER_FLUSH, GPUREG_NUMVERTICES, GPUREG_START_DRAW_FUNC0, GPUREG_VSH_NUM_ATTR,
    GPUREG_VTX_FUNC,
};
use super::{single_write, reg_write, GpuCmd};

verus! {

/// Number of vertex attributes, minus one.
#[derive(Clone, Copy)]
pub struct NumAttr(pub u32);

impl GpuCmd for NumAttr {
    open spec fn words(self) -> Seq<u32> {
        single_write(GPUREG_VSH_NUM_ATTR, self.0)
    }

    fn cmd(self) -> (r: Vec<u32>) {
        reg_write(GPUREG_VSH_NUM_ATTR, self.0)
    }
}

/// Number of vertices to draw.
#[derive(Clone, Copy)]
pub struct NumVertices(pub u32);

impl GpuCmd for NumVertices {
    open spec fn words(self) -> Seq<u32> {
        single_write(GPUREG_NUMVERTICES, self.0)
    }

    fn cmd(self) -> (r: Vec<u32>) {
        reg_write(GPUREG_NUMVERTICES, self.0)
    }
}

/// Leaves configuration mode before drawing.
#[derive(Clone, Copy)]
pub struct DrawingMode;

impl GpuCmd for DrawingMode {
    open spec fn words(self) -> Seq<u32> {
        single_write(GPUREG_START_DRAW_FUNC0, 0u32)
    }

    fn cmd(self) -> (r: Vec<u32>) {
        reg_write(GPUREG_START_DRAW_FUNC0, 0)
    }
}

/// Returns to configuration mode after drawing.
#[derive(Clone, Copy)]
pub struct ConfigurationMode;

impl GpuCmd for ConfigurationMode {
    open spec fn words(self) -> Seq<u32> {
        single_write(GPUREG_START_DRAW_FUNC0, 1u32)
    }

    fn cmd(self) -> (r: Vec<u32>) {
        reg_write(GPUREG_START_DRAW_FUNC0, 1)
    }
}

/// Clears the post-vertex cache.
#[derive(Clone, Copy)]
pub struct ClearPostVertexCache;

impl GpuCmd for ClearPostVertexCache {
    open spec fn words(self) -> Seq<u32> {
        single_write(GPUREG_VTX_FUNC, 1u32)
    }

    fn cmd(self) -> (r: Vec<u32>) {
        reg_write(GPUREG_VTX_FUNC, 1)
    }
}

/// Flushes the framebuffer caches.
#[derive(Clone, Copy)]
pub struct FlushFramebuffer;

impl GpuCmd for FlushFramebuffer {
    open spec fn words(self) -> Seq<u32> {
        single_write(GPUREG_FRAMEBUFFER_FLUSH, 1u32)
    }

    fn cmd(self) -> (r: Vec<u32>) {
        reg_write(GPUREG_FRAMEBUFFER_FLUSH, 1)
    }
}

} // verus!
