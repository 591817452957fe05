//! Shader output mapping: which semantic each output-register lane holds.
use vstd::prelude::*;

use super::regs::{
    GPUREG_SH_OUTATTR_CLOCK, GPUREG_SH_OUTATTR_MODE, GPUREG_SH_OUTMAP_O0, GPUREG_SH_OUTMAP_TOTAL,
};
use super::{reg_write, single_write, Cons, GpuCmd, GpuCmdByMut, GpuCmdDisable, Root};

verus! {

/// The semantic of one lane of an output register.
#[derive(Clone, Copy, Debug, PartialEq, Eq, Structural)]
pub enum Component {
    PositionX,
    PositionY,
    PositionZ,
    PositionW,
    NormQuatX,
    NormQuatY,
    NormQuatZ,
    NormQuatW,
    ColorR,
    ColorG,
    ColorB,
    ColorA,
    TexCoord0U,
    TexCoord0V,
    TexCoord1U,
    TexCoord1V,
    TexCoord0W,
    ViewX,
    ViewY,
    ViewZ,
    TexCoord2U,
    TexCoord2V,
    Unused,
}

impl Component {
    /// The field value the hardware expects.
    pub open spec fn spec_code(self) -> u32 {
        match self {
            Component::PositionX => 0,
            Component::PositionY => 1,
            Component::PositionZ => 2,
            Component::PositionW => 3,
            Component::NormQuatX => 4,
            Component::NormQuatY => 5,
            Component::NormQuatZ => 6,
            Component::NormQuatW => 7,
            Component::ColorR => 8,
            Component::ColorG => 9,
            Component::ColorB => 10,
            Component::ColorA => 11,
            Component::TexCoord0U => 12,
            Component::TexCoord0V => 13,
            Component::TexCoord1U => 14,
            Component::TexCoord1V => 15,
            Component::TexCoord0W => 16,
            Component::ViewX => 17,
            Component::ViewY => 18,
            Component::ViewZ => 19,
            Component::TexCoord2U => 20,
            Component::TexCoord2V => 21,
            Component::Unused => 31,
        }
    }

    pub fn code(self) -> (r: u32)
        ensures
            r == self.spec_code(),
            r <= 31,
    {
        match self {
            Component::PositionX => 0,
            Component::PositionY => 1,
            Component::PositionZ => 2,
            Component::PositionW => 3,
            Component::NormQuatX => 4,
            Component::NormQuatY => 5,
            Component::NormQuatZ => 6,
            Component::NormQuatW => 7,
            Component::ColorR => 8,
            Component::ColorG => 9,
            Component::ColorB => 10,
            Component::ColorA => 11,
            Component::TexCoord0U => 12,
            Component::TexCoord0V => 13,
            Component::TexCoord1U => 14,
            Component::TexCoord1V => 15,
            Component::TexCoord0W => 16,
            Component::ViewX => 17,
            Component::ViewY => 18,
            Component::ViewZ => 19,
            Component::TexCoord2U => 20,
            Component::TexCoord2V => 21,
            Component::Unused => 31,
        }
    }
}

/// The four lane semantics of output-map register `O{0}`.
#[derive(Clone, Copy)]
pub struct OutMap(pub u8, pub Component, pub Component, pub Component, pub Component);

impl OutMap {
    pub open spec fn spec_param(self) -> u32 {
        self.1.spec_code() | (self.2.spec_code() << 8u32) | (self.3.spec_code() << 16u32) | (
        self.4.spec_code() << 24u32)
    }
}

impl GpuCmd for OutMap {
    open spec fn words(self) -> Seq<u32> {
        single_write((GPUREG_SH_OUTMAP_O0 + self.0) as u32, self.spec_param())
    }

    fn cmd(self) -> (r: Vec<u32>) {
        let p = self.1.code() | (self.2.code() << 8u32) | (self.3.code() << 16u32) | (self.4.code()
            << 24u32);
        reg_write(GPUREG_SH_OUTMAP_O0 + self.0 as u32, p)
    }
}

/// The number of output registers in use.
#[derive(Clone, Copy)]
pub struct OutMapTotal(pub u32);

impl GpuCmd for OutMapTotal {
    open spec fn words(self) -> Seq<u32> {
        single_write(GPUREG_SH_OUTMAP_TOTAL, self.0)
    }

    fn cmd(self) -> (r: Vec<u32>) {
        reg_write(GPUREG_SH_OUTMAP_TOTAL, self.0)
    }
}

/// Register `O{reg}` with all four lanes unused.
pub fn unused(reg: u8) -> (r: OutMap)
    ensures
        r == OutMap(reg, Component::Unused, Component::Unused, Component::Unused, Component::Unused),
{
    OutMap(reg, Component::Unused, Component::Unused, Component::Unused, Component::Unused)
}

/// The command group of `reset`.
pub type Reset = Cons<
    Cons<Cons<Cons<Cons<Cons<Cons<Cons<Root, OutMap>, OutMap>, OutMap>, OutMap>, OutMap>, OutMap>, OutMap>,
    OutMapTotal,
>;

/// The words of register `O{reg}` with every lane unused.
pub open spec fn unused_words(reg: u8) -> Seq<u32> {
    single_write((GPUREG_SH_OUTMAP_O0 + reg) as u32, 0x1F1F_1F1F)
}

/// Marks every lane of `O0..O6` unused and the output count zero.
pub fn reset() -> (r: Reset)
    ensures
        r.emitted() == unused_words(0) + unused_words(1) + unused_words(2) + unused_words(3)
            + unused_words(4) + unused_words(5) + unused_words(6) + single_write(
            GPUREG_SH_OUTMAP_TOTAL,
            0,
        ),
{
    assert((0x1Fu32 | (0x1Fu32 << 8u32) | (0x1Fu32 << 16u32) | (0x1Fu32 << 24u32)) == 0x1F1F_1F1Fu32)
        by (bit_vector);
    Root.add(unused(0)).add(unused(1)).add(unused(2)).add(unused(3)).add(unused(4)).add(
        unused(5),
    ).add(unused(6)).add(OutMapTotal(0))
}

/// Output attributes include texture coordinates; the disabling form turns that off.
#[derive(Clone, Copy)]
pub struct UseTextureCoordinates;

impl GpuCmd for UseTextureCoordinates {
    open spec fn words(self) -> Seq<u32> {
        single_write(GPUREG_SH_OUTATTR_MODE, 1u32)
    }

    fn cmd(self) -> (r: Vec<u32>) {
        reg_write(GPUREG_SH_OUTATTR_MODE, 1)
    }
}

impl GpuCmdDisable for UseTextureCoordinates {
    open spec fn disable_words(self) -> Seq<u32> {
        single_write(GPUREG_SH_OUTATTR_MODE, 0)
    }

    fn cmd_disable(self) -> (r: Vec<u32>) {
        reg_write(GPUREG_SH_OUTATTR_MODE, 0)
    }
}

/// Which output attributes are clocked.
#[derive(Clone, Copy)]
pub struct Clock {
    pub position_z: bool,
    pub color: bool,
    pub texcoord0: bool,
    pub texcoord1: bool,
    pub texcoord2: bool,
    pub texcoord0w: bool,
    pub normquat_or_view: bool,
}

pub open spec fn flag(b: bool, v: u32) -> u32 {
    if b {
        v
    } else {
        0
    }
}

fn flag_of(b: bool, v: u32) -> (r: u32)
    ensures
        r == flag(b, v),
{
    if b {
        v
    } else {
        0
    }
}

impl Clock {
    /// Bits 0 (position z), 1 (color), 8, 9, 10 (texture coordinates 0..2),
    /// 16 (texture coordinate 0 w), 24 (normal quaternion or view).
    pub open spec fn spec_param(self) -> u32 {
        flag(self.position_z, 0x1) | flag(self.color, 0x2) | flag(self.texcoord0, 0x100) | flag(
            self.texcoord1,
            0x200,
        ) | flag(self.texcoord2, 0x400) | flag(self.texcoord0w, 0x1_0000) | flag(
            self.normquat_or_view,
            0x100_0000,
        )
    }

    pub fn param(self) -> (r: u32)
        ensures
            r == self.spec_param(),
    {
        flag_of(self.position_z, 0x1) | flag_of(self.color, 0x2) | flag_of(self.texcoord0, 0x100)
            | flag_of(self.texcoord1, 0x200) | flag_of(self.texcoord2, 0x400) | flag_of(
            self.texcoord0w,
            0x1_0000,
        ) | flag_of(self.normquat_or_view, 0x100_0000)
    }
}

impl GpuCmd for Clock {
    open spec fn words(self) -> Seq<u32> {
        single_write(GPUREG_SH_OUTATTR_CLOCK, self.spec_param())
    }

    fn cmd(self) -> (r: Vec<u32>) {
        reg_write(GPUREG_SH_OUTATTR_CLOCK, self.param())
    }
}

} // verus!
