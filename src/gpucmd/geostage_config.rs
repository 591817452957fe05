//! Geometry stage configuration.
use vstd::prelude::*;

use super::regs::GPUREG_GEOSTAGE_CONFIG;
use super::{single_write, reg_write, GpuCmd};

verus! {

/// Whether a geometry shader runs, whether triangle elements are drawn, and
/// the reserved subdivision bit.
#[derive(Clone, Copy)]
pub struct Config {
    pub geometry_shader_in_use: bool,
    pub drawing_triangle_elements: bool,
    pub use_reserved_geometry_shader_subdivision: bool,
}

impl Config {
    /// Geometry shader at bit 1, triangle elements at bit 8, subdivision at bit 31.
    pub open spec fn spec_param(self) -> u32 {
        (if self.geometry_shader_in_use {
            2u32
        } else {
            0u32
        }) | (if self.drawing_triangle_elements {
            0x100u32
        } else {
            0u32
        }) | (if self.use_reserved_geometry_shader_subdivision {
            0x8000_0000u32
        } else {
            0u32
        })
    }

    pub fn param(self) -> (r: u32)
        ensures
            r == self.spec_param(),
    {
        let g: u32 = if self.geometry_shader_in_use {
            2
        } else {
            0
        };
        let t: u32 = if self.drawing_triangle_elements {
            0x100
        } else {
            0
        };
        let s: u32 = if self.use_reserved_geometry_shader_subdivision {
            0x8000_0000
        } else {
            0
        };
        g | t | s
    }
}

impl GpuCmd for Config {
    open spec fn words(self) -> Seq<u32> {
        single_write(GPUREG_GEOSTAGE_CONFIG, self.spec_param())
    }

    fn cmd(self) -> (r: Vec<u32>) {
        reg_write(GPUREG_GEOSTAGE_CONFIG, self.param())
    }
}

} // verus!
