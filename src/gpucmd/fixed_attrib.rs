//! Fixed vertex attributes.
use vstd::prelude::*;

use super::regs::{GPUREG_FIXEDATTRIB_DATA0, GPUREG_FIXEDATTRIB_INDEX};
use super::{extra_params, mask, single_write, spec_extra_params, spec_mask, reg_write, GpuCmd, CONSECUTIVE_WRITING};

verus! {

/// Selects the attribute the next data fills; `Index(0xF)` for immediate mode.
#[derive(Clone, Copy)]
pub struct Index(pub u32);

impl GpuCmd for Index {
    open spec fn words(self) -> Seq<u32> {
        single_write(GPUREG_FIXEDATTRIB_INDEX, self.0)
    }

    fn cmd(self) -> (r: Vec<u32>) {
        reg_write(GPUREG_FIXEDATTRIB_INDEX, self.0)
    }
}

/// One attribute value: four float24 components packed in three words.
#[derive(Clone, Copy)]
pub struct Data(pub [u32; 3]);

impl GpuCmd for Data {
    /// The three words go to `DATA0..DATA2` under one consecutive-writing header.
    open spec fn words(self) -> Seq<u32> {
        seq![
            self.0[0],
            GPUREG_FIXEDATTRIB_DATA0 | spec_mask(0xF) | spec_extra_params(2) | CONSECUTIVE_WRITING,
            self.0[1],
            self.0[2],
        ]
    }

    fn cmd(self) -> (r: Vec<u32>) {
        let mut v: Vec<u32> = Vec::new();
        v.push(self.0[0]);
        v.push(GPUREG_FIXEDATTRIB_DATA0 | mask(0xF) | extra_params(2) | CONSECUTIVE_WRITING);
        v.push(self.0[1]);
        v.push(self.0[2]);
        v
    }
}

} // verus!
