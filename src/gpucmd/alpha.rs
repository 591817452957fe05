//! Blending and the alpha test.
use vstd::prelude::*;

use super::regs::{GPUREG_BLEND_COLOR, GPUREG_BLEND_FUNC, GPUREG_FRAGOP_ALPHA_TEST};
use super::{single_write, reg_write, GpuCmd};

verus! {

/// How source and destination terms are combined.
#[derive(Clone, Copy, Debug, PartialEq, Eq, Structural)]
pub enum Equation {
    Add,
    Subtract,
    ReverseSubtract,
    Min,
    Max,
}

impl Equation {
    /// The field value the hardware expects.
    pub open spec fn spec_code(self) -> u32 {
        match self {
            Equation::Add => 0,
            Equation::Subtract => 1,
            Equation::ReverseSubtract => 2,
            Equation::Min => 3,
            Equation::Max => 4,
        }
    }

    pub fn code(self) -> (r: u32)
        ensures
            r == self.spec_code(),
            r <= 4,
    {
        match self {
            Equation::Add => 0,
            Equation::Subtract => 1,
            Equation::ReverseSubtract => 2,
            Equation::Min => 3,
            Equation::Max => 4,
        }
    }
}

/// A blend factor; four bits wide.
#[derive(Clone, Copy, Debug, PartialEq, Eq, Structural)]
pub enum Factor {
    Zero,
    One,
    SrcColor,
    OneMinusSrcColor,
    DstColor,
    OneMinusDstColor,
    SrcAlpha,
    OneMinusSrcAlpha,
    DstAlpha,
    OneMinusDstAlpha,
    ConstantColor,
    OneMinusConstantColor,
    ConstantAlpha,
    OneMinusConstantAlpha,
    SaturatedAlpha,
}

impl Factor {
    /// The field value the hardware expects.
    pub open spec fn spec_code(self) -> u32 {
        match self {
            Factor::Zero => 0,
            Factor::One => 1,
            Factor::SrcColor => 2,
            Factor::OneMinusSrcColor => 3,
            Factor::DstColor => 4,
            Factor::OneMinusDstColor => 5,
            Factor::SrcAlpha => 6,
            Factor::OneMinusSrcAlpha => 7,
            Factor::DstAlpha => 8,
            Factor::OneMinusDstAlpha => 9,
            Factor::ConstantColor => 10,
            Factor::OneMinusConstantColor => 11,
            Factor::ConstantAlpha => 12,
            Factor::OneMinusConstantAlpha => 13,
            Factor::SaturatedAlpha => 14,
        }
    }

    pub fn code(self) -> (r: u32)
        ensures
            r == self.spec_code(),
            r <= 14,
    {
        match self {
            Factor::Zero => 0,
            Factor::One => 1,
            Factor::SrcColor => 2,
            Factor::OneMinusSrcColor => 3,
            Factor::DstColor => 4,
            Factor::OneMinusDstColor => 5,
            Factor::SrcAlpha => 6,
            Factor::OneMinusSrcAlpha => 7,
            Factor::DstAlpha => 8,
            Factor::OneMinusDstAlpha => 9,
            Factor::ConstantColor => 10,
            Factor::OneMinusConstantColor => 11,
            Factor::ConstantAlpha => 12,
            Factor::OneMinusConstantAlpha => 13,
            Factor::SaturatedAlpha => 14,
        }
    }
}

/// Blend equations and factors for color and alpha.
#[derive(Clone, Copy, Debug, PartialEq, Eq, Structural)]
pub struct Blend {
    pub color_eq: Equation,
    pub alpha_eq: Equation,
    pub color_src: Factor,
    pub color_dst: Factor,
    pub alpha_src: Factor,
    pub alpha_dst: Factor,
}

impl Blend {
    pub fn new(
        color_eq: Equation,
        alpha_eq: Equation,
        color_src: Factor,
        color_dst: Factor,
        alpha_src: Factor,
        alpha_dst: Factor,
    ) -> (r: Blend)
        ensures
            r == (Blend { color_eq, alpha_eq, color_src, color_dst, alpha_src, alpha_dst }),
    {
        Blend { color_eq, alpha_eq, color_src, color_dst, alpha_src, alpha_dst }
    }

    /// The four bytes `[color_eq, alpha_eq, color_src | color_dst << 4,
    /// alpha_src | alpha_dst << 4]` as a little-endian word.
    pub open spec fn spec_param(self) -> u32 {
        self.color_eq.spec_code() | (self.alpha_eq.spec_code() << 8u32) | ((
        self.color_src.spec_code() | (self.color_dst.spec_code() << 4u32)) << 16u32) | ((
        self.alpha_src.spec_code() | (self.alpha_dst.spec_code() << 4u32)) << 24u32)
    }

    pub fn param(self) -> (r: u32)
        ensures
            r == self.spec_param(),
    {
        self.color_eq.code() | (self.alpha_eq.code() << 8u32) | ((self.color_src.code() | (
        self.color_dst.code() << 4u32)) << 16u32) | ((self.alpha_src.code() | (
        self.alpha_dst.code() << 4u32)) << 24u32)
    }
}

impl GpuCmd for Blend {
    open spec fn words(self) -> Seq<u32> {
        single_write(GPUREG_BLEND_FUNC, self.spec_param())
    }

    fn cmd(self) -> (r: Vec<u32>) {
        reg_write(GPUREG_BLEND_FUNC, self.param())
    }
}

/// Each byte of a blend command's payload holds one field: byte 0 the color
/// equation, byte 1 the alpha equation, byte 2 the color factors (source in
/// the low nibble), byte 3 the alpha factors.
pub proof fn lemma_blend_bytes(b: Blend)
    ensures
        b.spec_param() & 0xFF == b.color_eq.spec_code(),
        (b.spec_param() >> 8u32) & 0xFF == b.alpha_eq.spec_code(),
        (b.spec_param() >> 16u32) & 0xF == b.color_src.spec_code(),
        (b.spec_param() >> 20u32) & 0xF == b.color_dst.spec_code(),
        (b.spec_param() >> 24u32) & 0xF == b.alpha_src.spec_code(),
        (b.spec_param() >> 28u32) & 0xF == b.alpha_dst.spec_code(),
{
    let ce = b.color_eq.spec_code();
    let ae = b.alpha_eq.spec_code();
    let cs = b.color_src.spec_code();
    let cd = b.color_dst.spec_code();
    let as_ = b.alpha_src.spec_code();
    let ad = b.alpha_dst.spec_code();
    assert(ce < 8 && ae < 8 && cs < 16 && cd < 16 && as_ < 16 && ad < 16);
    let p = ce | (ae << 8u32) | ((cs | (cd << 4u32)) << 16u32) | ((as_ | (ad << 4u32)) << 24u32);
    assert(p & 0xFF == ce && (p >> 8u32) & 0xFF == ae && (p >> 16u32) & 0xF == cs && (p >> 20u32)
        & 0xF == cd && (p >> 24u32) & 0xF == as_ && (p >> 28u32) & 0xF == ad) by (bit_vector)
        requires
            ce < 8 && ae < 8 && cs < 16 && cd < 16 && as_ < 16 && ad < 16,
            p == ce | (ae << 8u32) | ((cs | (cd << 4u32)) << 16u32) | ((as_ | (ad << 4u32))
                << 24u32),
    ;
}

/// The constant blend color, as a little-endian RGBA word.
#[derive(Clone, Copy)]
pub struct Color(pub u32);

impl GpuCmd for Color {
    open spec fn words(self) -> Seq<u32> {
        single_write(GPUREG_BLEND_COLOR, self.0)
    }

    fn cmd(self) -> (r: Vec<u32>) {
        reg_write(GPUREG_BLEND_COLOR, self.0)
    }
}

/// Comparison of the alpha test.
#[derive(Clone, Copy, Debug, PartialEq, Eq, Structural)]
pub enum Function {
    Never,
    Always,
    Equal,
    NotEqual,
    LessThan,
    LessThanOrEqual,
    GreaterThan,
    GreaterThanOrEqual,
}

impl Function {
    /// The field value the hardware expects.
    pub open spec fn spec_code(self) -> u32 {
        match self {
            Function::Never => 0,
            Function::Always => 1,
            Function::Equal => 2,
            Function::NotEqual => 3,
            Function::LessThan => 4,
            Function::LessThanOrEqual => 5,
            Function::GreaterThan => 6,
            Function::GreaterThanOrEqual => 7,
        }
    }

    pub fn code(self) -> (r: u32)
        ensures
            r == self.spec_code(),
            r <= 7,
    {
        match self {
            Function::Never => 0,
            Function::Always => 1,
            Function::Equal => 2,
            Function::NotEqual => 3,
            Function::LessThan => 4,
            Function::LessThanOrEqual => 5,
            Function::GreaterThan => 6,
            Function::GreaterThanOrEqual => 7,
        }
    }
}

/// The alpha test (also known as alpha clip).
#[derive(Clone, Copy, Debug, PartialEq, Eq, Structural)]
pub struct Test {
    pub enabled: bool,
    pub function: Function,
    pub reference_value: u16,
}

impl Test {
    /// A test that lets every fragment pass.
    pub fn disabled() -> (r: Test)
        ensures
            r == (Test { enabled: false, function: Function::Always, reference_value: 0 }),
    {
        Test { enabled: false, function: Function::Always, reference_value: 0x0000 }
    }

    /// Bit 0 is clear when enabled; the function at bits 4..8, the
    /// reference value from bit 8.
    pub open spec fn spec_param(self) -> u32 {
        (if self.enabled {
            0u32
        } else {
            1u32
        }) | (self.function.spec_code() << 4u32) | ((self.reference_value as u32) << 8u32)
    }

    pub fn param(self) -> (r: u32)
        ensures
            r == self.spec_param(),
    {
        let e: u32 = if self.enabled {
            0
        } else {
            1
        };
        e | (self.function.code() << 4u32) | ((self.reference_value as u32) << 8u32)
    }
}

impl GpuCmd for Test {
    open spec fn words(self) -> Seq<u32> {
        single_write(GPUREG_FRAGOP_ALPHA_TEST, self.spec_param())
    }

    fn cmd(self) -> (r: Vec<u32>) {
        reg_write(GPUREG_FRAGOP_ALPHA_TEST, self.param())
    }
}

} // verus!
