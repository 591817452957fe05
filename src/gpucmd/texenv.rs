//! Texture combiner stages: source, operand, combiner, constant color and
//! scale, written as one chain per stage.
use vstd::prelude::*;

use super::chain::{chain_words, Chain, ChainError, ChainMore, Chainable};
use super::regs::{
    GPUREG_TEXENV0_SOURCE, GPUREG_TEXENV1_SOURCE, GPUREG_TEXENV2_SOURCE, GPUREG_TEXENV3_SOURCE,
    GPUREG_TEXENV4_SOURCE, GPUREG_TEXENV5_SOURCE,
};
use super::{Cons, GpuCmdByMut, Root};

verus! {

/// One of the six combiner stages, by the first of its registers.
pub trait TexEnv: Sized + Copy {
    spec fn spec_base() -> u32;

    fn base() -> (r: u32)
        ensures
            r == Self::spec_base(),
            r < 0xFF0,
    ;

    fn stage() -> Self;
}

/// Combiner stage 0.
#[derive(Clone, Copy, PartialEq, Eq, Debug)]
pub struct E0;

impl TexEnv for E0 {
    open spec fn spec_base() -> u32 {
        GPUREG_TEXENV0_SOURCE
    }

    fn base() -> (r: u32) {
        GPUREG_TEXENV0_SOURCE
    }

    fn stage() -> Self {
        E0
    }
}

/// Combiner stage 1.
#[derive(Clone, Copy, PartialEq, Eq, Debug)]
pub struct E1;

impl TexEnv for E1 {
    open spec fn spec_base() -> u32 {
        GPUREG_TEXENV1_SOURCE
    }

    fn base() -> (r: u32) {
        GPUREG_TEXENV1_SOURCE
    }

    fn stage() -> Self {
        E1
    }
}

/// Combiner stage 2.
#[derive(Clone, Copy, PartialEq, Eq, Debug)]
pub struct E2;

impl TexEnv for E2 {
    open spec fn spec_base() -> u32 {
        GPUREG_TEXENV2_SOURCE
    }

    fn base() -> (r: u32) {
        GPUREG_TEXENV2_SOURCE
    }

    fn stage() -> Self {
        E2
    }
}

/// Combiner stage 3.
#[derive(Clone, Copy, PartialEq, Eq, Debug)]
pub struct E3;

impl TexEnv for E3 {
    open spec fn spec_base() -> u32 {
        GPUREG_TEXENV3_SOURCE
    }

    fn base() -> (r: u32) {
        GPUREG_TEXENV3_SOURCE
    }

    fn stage() -> Self {
        E3
    }
}

/// Combiner stage 4.
#[derive(Clone, Copy, PartialEq, Eq, Debug)]
pub struct E4;

impl TexEnv for E4 {
    open spec fn spec_base() -> u32 {
        GPUREG_TEXENV4_SOURCE
    }

    fn base() -> (r: u32) {
        GPUREG_TEXENV4_SOURCE
    }

    fn stage() -> Self {
        E4
    }
}

/// Combiner stage 5.
#[derive(Clone, Copy, PartialEq, Eq, Debug)]
pub struct E5;

impl TexEnv for E5 {
    open spec fn spec_base() -> u32 {
        GPUREG_TEXENV5_SOURCE
    }

    fn base() -> (r: u32) {
        GPUREG_TEXENV5_SOURCE
    }

    fn stage() -> Self {
        E5
    }
}

/// An input of a combiner.
#[derive(Clone, Copy, Debug, PartialEq, Eq, Structural)]
pub enum Source {
    PrimaryColor,
    FragmentPrimaryColor,
    FragmentSecondaryColor,
    Texture0,
    Texture1,
    Texture2,
    Texture3,
    PreviousBuffer,
    Constant,
    Previous,
}

impl Source {
    /// The field value the hardware expects.
    pub open spec fn spec_code(self) -> u32 {
        match self {
            Source::PrimaryColor => 0,
            Source::FragmentPrimaryColor => 1,
            Source::FragmentSecondaryColor => 2,
            Source::Texture0 => 3,
            Source::Texture1 => 4,
            Source::Texture2 => 5,
            Source::Texture3 => 6,
            Source::PreviousBuffer => 13,
            Source::Constant => 14,
            Source::Previous => 15,
        }
    }

    pub fn code(self) -> (r: u32)
        ensures
            r == self.spec_code(),
            r <= 15,
    {
        match self {
            Source::PrimaryColor => 0,
            Source::FragmentPrimaryColor => 1,
            Source::FragmentSecondaryColor => 2,
            Source::Texture0 => 3,
            Source::Texture1 => 4,
            Source::Texture2 => 5,
            Source::Texture3 => 6,
            Source::PreviousBuffer => 13,
            Source::Constant => 14,
            Source::Previous => 15,
        }
    }
}

/// How a color input is read.
#[derive(Clone, Copy, Debug, PartialEq, Eq, Structural)]
pub enum ColorOp {
    SourceColor,
    OneMinusSourceColor,
    SourceAlpha,
    OneMinusSourceAlpha,
    SourceRed,
    OneMinusSourceRed,
    SourceGreen,
    OneMinusSourceGreen,
    SourceBlue,
    OneMinusSourceBlue,
}

impl ColorOp {
    /// The field value the hardware expects.
    pub open spec fn spec_code(self) -> u32 {
        match self {
            ColorOp::SourceColor => 0,
            ColorOp::OneMinusSourceColor => 1,
            ColorOp::SourceAlpha => 2,
            ColorOp::OneMinusSourceAlpha => 3,
            ColorOp::SourceRed => 4,
            ColorOp::OneMinusSourceRed => 5,
            ColorOp::SourceGreen => 8,
            ColorOp::OneMinusSourceGreen => 9,
            ColorOp::SourceBlue => 12,
            ColorOp::OneMinusSourceBlue => 13,
        }
    }

    pub fn code(self) -> (r: u32)
        ensures
            r == self.spec_code(),
            r <= 13,
    {
        match self {
            ColorOp::SourceColor => 0,
            ColorOp::OneMinusSourceColor => 1,
            ColorOp::SourceAlpha => 2,
            ColorOp::OneMinusSourceAlpha => 3,
            ColorOp::SourceRed => 4,
            ColorOp::OneMinusSourceRed => 5,
            ColorOp::SourceGreen => 8,
            ColorOp::OneMinusSourceGreen => 9,
            ColorOp::SourceBlue => 12,
            ColorOp::OneMinusSourceBlue => 13,
        }
    }
}

/// How an alpha input is read.
#[derive(Clone, Copy, Debug, PartialEq, Eq, Structural)]
pub enum AlphaOp {
    SourceAlpha,
    OneMinusSourceAlpha,
    SourceRed,
    OneMinusSourceRed,
    SourceGreen,
    OneMinusSourceGreen,
    SourceBlue,
    OneMinusSourceBlue,
}

impl AlphaOp {
    /// The field value the hardware expects.
    pub open spec fn spec_code(self) -> u32 {
        match self {
            AlphaOp::SourceAlpha => 0,
            AlphaOp::OneMinusSourceAlpha => 1,
            AlphaOp::SourceRed => 2,
            AlphaOp::OneMinusSourceRed => 3,
            AlphaOp::SourceGreen => 4,
            AlphaOp::OneMinusSourceGreen => 5,
            AlphaOp::SourceBlue => 6,
            AlphaOp::OneMinusSourceBlue => 7,
        }
    }

    pub fn code(self) -> (r: u32)
        ensures
            r == self.spec_code(),
            r <= 7,
    {
        match self {
            AlphaOp::SourceAlpha => 0,
            AlphaOp::OneMinusSourceAlpha => 1,
            AlphaOp::SourceRed => 2,
            AlphaOp::OneMinusSourceRed => 3,
            AlphaOp::SourceGreen => 4,
            AlphaOp::OneMinusSourceGreen => 5,
            AlphaOp::SourceBlue => 6,
            AlphaOp::OneMinusSourceBlue => 7,
        }
    }
}

/// How a combiner combines its inputs.
#[derive(Clone, Copy, Debug, PartialEq, Eq, Structural)]
pub enum CombineMode {
    Replace,
    Modulate,
    Add,
    AddSigned,
    Interpolate,
    Subtract,
    Dot3RGB,
    Dot3RGBA,
    MultiplyThenAdd,
    AddThenMultiply,
}

impl CombineMode {
    /// The field value the hardware expects.
    pub open spec fn spec_code(self) -> u32 {
        match self {
            CombineMode::Replace => 0,
            CombineMode::Modulate => 1,
            CombineMode::Add => 2,
            CombineMode::AddSigned => 3,
            CombineMode::Interpolate => 4,
            CombineMode::Subtract => 5,
            CombineMode::Dot3RGB => 6,
            CombineMode::Dot3RGBA => 7,
            CombineMode::MultiplyThenAdd => 8,
            CombineMode::AddThenMultiply => 9,
        }
    }

    pub fn code(self) -> (r: u32)
        ensures
            r == self.spec_code(),
            r <= 9,
    {
        match self {
            CombineMode::Replace => 0,
            CombineMode::Modulate => 1,
            CombineMode::Add => 2,
            CombineMode::AddSigned => 3,
            CombineMode::Interpolate => 4,
            CombineMode::Subtract => 5,
            CombineMode::Dot3RGB => 6,
            CombineMode::Dot3RGBA => 7,
            CombineMode::MultiplyThenAdd => 8,
            CombineMode::AddThenMultiply => 9,
        }
    }
}

/// Output scale of a combiner.
#[derive(Clone, Copy, Debug, PartialEq, Eq, Structural)]
pub enum Scale {
    X1,
    X2,
    X4,
}

impl Scale {
    /// The field value the hardware expects.
    pub open spec fn spec_code(self) -> u32 {
        match self {
            Scale::X1 => 0,
            Scale::X2 => 1,
            Scale::X4 => 2,
        }
    }

    pub fn code(self) -> (r: u32)
        ensures
            r == self.spec_code(),
            r <= 2,
    {
        match self {
            Scale::X1 => 0,
            Scale::X2 => 1,
            Scale::X4 => 2,
        }
    }
}

/// The three inputs of stage `TE`, for color and alpha.
pub struct SourceSplit<TE: TexEnv> {
    pub rgb: (Source, Source, Source),
    pub alpha: (Source, Source, Source),
    pub te: TE,
}

/// The same inputs for color and alpha.
pub fn source_both<TE: TexEnv>(a: Source, b: Source, c: Source) -> (r: SourceSplit<TE>)
    ensures
        r.rgb == (a, b, c),
        r.alpha == (a, b, c),
{
    SourceSplit { rgb: (a, b, c), alpha: (a, b, c), te: TE::stage() }
}

impl<TE: TexEnv> Chainable for SourceSplit<TE> {
    open spec fn spec_reg(&self) -> u32 {
        TE::spec_base()
    }

    /// Color inputs at bits 0, 4, 8; alpha inputs at 16, 20, 24.
    open spec fn spec_param(&self) -> u32 {
        self.rgb.0.spec_code() | (self.rgb.1.spec_code() << 4u32) | (self.rgb.2.spec_code()
            << 8u32) | (self.alpha.0.spec_code() << 16u32) | (self.alpha.1.spec_code() << 20u32) | (
        self.alpha.2.spec_code() << 24u32)
    }

    fn reg(&self) -> (r: u32) {
        TE::base()
    }

    fn param(self) -> (r: u32) {
        self.rgb.0.code() | (self.rgb.1.code() << 4u32) | (self.rgb.2.code() << 8u32) | (
        self.alpha.0.code() << 16u32) | (self.alpha.1.code() << 20u32) | (self.alpha.2.code()
            << 24u32)
    }
}

/// How stage `TE` reads its inputs.
pub struct Operand<TE: TexEnv> {
    pub rgb: (ColorOp, ColorOp, ColorOp),
    pub alpha: (AlphaOp, AlphaOp, AlphaOp),
    pub te: TE,
}

impl<TE: TexEnv> Chainable for Operand<TE> {
    open spec fn spec_reg(&self) -> u32 {
        (TE::spec_base() + 1) as u32
    }

    /// Color operands at bits 0, 4, 8; alpha operands at 12, 16, 20.
    open spec fn spec_param(&self) -> u32 {
        self.rgb.0.spec_code() | (self.rgb.1.spec_code() << 4u32) | (self.rgb.2.spec_code()
            << 8u32) | (self.alpha.0.spec_code() << 12u32) | (self.alpha.1.spec_code() << 16u32) | (
        self.alpha.2.spec_code() << 20u32)
    }

    fn reg(&self) -> (r: u32) {
        TE::base() + 1
    }

    fn param(self) -> (r: u32) {
        self.rgb.0.code() | (self.rgb.1.code() << 4u32) | (self.rgb.2.code() << 8u32) | (
        self.alpha.0.code() << 12u32) | (self.alpha.1.code() << 16u32) | (self.alpha.2.code()
            << 20u32)
    }
}

/// The combine modes of stage `TE`, for color and alpha.
#[derive(Clone, Copy)]
pub struct CombinerSplit<TE: TexEnv> {
    pub rgb: CombineMode,
    pub alpha: CombineMode,
    pub te: TE,
}

impl<TE: TexEnv> Chainable for CombinerSplit<TE> {
    open spec fn spec_reg(&self) -> u32 {
        (TE::spec_base() + 2) as u32
    }

    open spec fn spec_param(&self) -> u32 {
        self.rgb.spec_code() | (self.alpha.spec_code() << 16u32)
    }

    fn reg(&self) -> (r: u32) {
        TE::base() + 2
    }

    fn param(self) -> (r: u32) {
        self.rgb.code() | (self.alpha.code() << 16u32)
    }
}

/// The same combine mode for color and alpha.
pub fn combiner_both<TE: TexEnv>(m: CombineMode) -> (r: CombinerSplit<TE>)
    ensures
        r.rgb == m,
        r.alpha == m,
{
    CombinerSplit { rgb: m, alpha: m, te: TE::stage() }
}

/// The constant color of stage `TE`, as a little-endian RGBA word.
#[derive(Clone, Copy)]
pub struct Color<TE: TexEnv>(pub u32, pub TE);

impl<TE: TexEnv> Chainable for Color<TE> {
    open spec fn spec_reg(&self) -> u32 {
        (TE::spec_base() + 3) as u32
    }

    open spec fn spec_param(&self) -> u32 {
        self.0
    }

    fn reg(&self) -> (r: u32) {
        TE::base() + 3
    }

    fn param(self) -> (r: u32) {
        self.0
    }
}

/// The output scales of stage `TE`, for color and alpha.
#[derive(Clone, Copy)]
pub struct ScaleSplit<TE: TexEnv> {
    pub rgb: Scale,
    pub alpha: Scale,
    pub te: TE,
}

/// The same scale for color and alpha.
pub fn scale_both<TE: TexEnv>(s: Scale) -> (r: ScaleSplit<TE>)
    ensures
        r.rgb == s,
        r.alpha == s,
{
    ScaleSplit { rgb: s, alpha: s, te: TE::stage() }
}

impl<TE: TexEnv> Chainable for ScaleSplit<TE> {
    open spec fn spec_reg(&self) -> u32 {
        (TE::spec_base() + 4) as u32
    }

    open spec fn spec_param(&self) -> u32 {
        self.rgb.spec_code() | (self.alpha.spec_code() << 16u32)
    }

    fn reg(&self) -> (r: u32) {
        TE::base() + 4
    }

    fn param(self) -> (r: u32) {
        self.rgb.code() | (self.alpha.code() << 16u32)
    }
}

/// Payload of the source register that selects `Previous` for every input.
pub const ALL_PREVIOUS: u32 = 0x0FFF_0FFF;

/// Stage `TE` passing the previous stage's output through unchanged:
/// all inputs `Previous`, plain operands, `Replace`, black constant, scale 1.
pub fn default_for<TE: TexEnv>() -> (r: ChainMore)
    ensures
        r.spec_reg() == TE::spec_base(),
        r.spec_params() == seq![ALL_PREVIOUS, 0u32, 0, 0, 0],
{
    let base = TE::base();
    assert((15u32 | (15u32 << 4u32) | (15u32 << 8u32) | (15u32 << 16u32) | (15u32 << 20u32) | (
    15u32 << 24u32)) == ALL_PREVIOUS) by (bit_vector);
    assert((0u32 | (0u32 << 4u32) | (0u32 << 8u32) | (0u32 << 12u32) | (0u32 << 16u32) | (0u32
        << 20u32)) == 0) by (bit_vector);
    assert((0u32 | (0u32 << 16u32)) == 0) by (bit_vector);
    let one = Chain::start(source_both::<TE>(Source::Previous, Source::Previous, Source::Previous));
    let op = Operand::<TE> {
        rgb: (ColorOp::SourceColor, ColorOp::SourceColor, ColorOp::SourceColor),
        alpha: (AlphaOp::SourceAlpha, AlphaOp::SourceAlpha, AlphaOp::SourceAlpha),
        te: TE::stage(),
    };
    let two = match one.link(op) {
        Ok(c) => c,
        Err(_) => {
            return vstd::pervasive::unreached();
        },
    };
    let three = match two.link(combiner_both::<TE>(CombineMode::Replace)) {
        Ok(c) => c,
        Err(_) => {
            return vstd::pervasive::unreached();
        },
    };
    let four = match three.link(Color::<TE>(0x0000_0000, TE::stage())) {
        Ok(c) => c,
        Err(_) => {
            return vstd::pervasive::unreached();
        },
    };
    match four.link(scale_both::<TE>(Scale::X1)) {
        Ok(c) => c,
        Err(_) => vstd::pervasive::unreached(),
    }
}

/// All six stages set to pass-through.
pub fn all_defaults() -> (r: Cons<
    Cons<Cons<Cons<Cons<Cons<Root, ChainMore>, ChainMore>, ChainMore>, ChainMore>, ChainMore>,
    ChainMore,
>)
    ensures
        r.emitted() == chain_words(GPUREG_TEXENV0_SOURCE, seq![ALL_PREVIOUS, 0u32, 0, 0, 0])
            + chain_words(GPUREG_TEXENV1_SOURCE, seq![ALL_PREVIOUS, 0u32, 0, 0, 0]) + chain_words(
            GPUREG_TEXENV2_SOURCE,
            seq![ALL_PREVIOUS, 0u32, 0, 0, 0],
        ) + chain_words(GPUREG_TEXENV3_SOURCE, seq![ALL_PREVIOUS, 0u32, 0, 0, 0]) + chain_words(
            GPUREG_TEXENV4_SOURCE,
            seq![ALL_PREVIOUS, 0u32, 0, 0, 0],
        ) + chain_words(GPUREG_TEXENV5_SOURCE, seq![ALL_PREVIOUS, 0u32, 0, 0, 0]),
{
    Root.add(default_for::<E0>()).add(default_for::<E1>()).add(default_for::<E2>()).add(
        default_for::<E3>(),
    ).add(default_for::<E4>()).add(default_for::<E5>())
}

} // verus!
