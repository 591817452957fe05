//! Color buffers that the GPU renders into.
use vstd::prelude::*;

use crate::gpucmd::regs::{
    GPUREG_COLORBUFFER_FORMAT, GPUREG_COLORBUFFER_LOC, GPUREG_COLORBUFFER_READ,
    GPUREG_COLORBUFFER_WRITE, GPUREG_FRAMEBUFFER_DIM,
};
use crate::gpucmd::{full_write, mask, GpuCmdByMut};

verus! {

/// Pixel format of a color buffer.
#[derive(Clone, Copy, Debug, PartialEq, Eq, Structural)]
pub enum ColorFormat {
    RGBA8,
    /// Not usable as a render target.
    RGB8,
    RGBA5551,
    RGB565,
    RGBA4,
}

impl ColorFormat {
    pub open spec fn spec_bytes_per_pixel(self) -> usize {
        match self {
            ColorFormat::RGBA8 => 4,
            ColorFormat::RGB8 => 3,
            _ => 2,
        }
    }

    pub fn bytes_per_pixel(self) -> (r: usize)
        ensures
            r == self.spec_bytes_per_pixel(),
    {
        match self {
            ColorFormat::RGBA8 => 4,
            ColorFormat::RGB8 => 3,
            ColorFormat::RGBA5551 => 2,
            ColorFormat::RGB565 => 2,
            ColorFormat::RGBA4 => 2,
        }
    }

    /// The value of `GPUREG_COLORBUFFER_FORMAT` for a render target.
    pub fn gpureg_param(self) -> (r: u32)
        requires
            !(self is RGB8),
        ensures
            r == 2,
    {
        2
    }
}

pub open spec fn spec_dim(width: u32, height: u32) -> u32 {
    (height << 16u32) | (width & 0xFFFF)
}

/// Packed dimensions: height in the high half, width in the low half.
pub fn dim(width: u32, height: u32) -> (r: u32)
    ensures
        r == spec_dim(width, height),
{
    (height << 16u32) | (width & 0xFFFF)
}

/// A render target: its size, format and the physical address of its memory.
#[derive(Clone, Copy)]
pub struct ColorBuffer {
    width: u32,
    height: u32,
    format: ColorFormat,
    location: u32,
}

impl ColorBuffer {
    #[verifier::type_invariant]
    spec fn inv(self) -> bool {
        self.height >= 1 && !(self.format is RGB8)
    }

    pub closed spec fn spec_width(self) -> u32 {
        self.width
    }

    pub closed spec fn spec_height(self) -> u32 {
        self.height
    }

    pub closed spec fn spec_format(self) -> ColorFormat {
        self.format
    }

    pub closed spec fn spec_location(self) -> u32 {
        self.location
    }

    /// Bytes a buffer of this size and format takes, if that fits in `usize`.
    pub fn byte_size(width: u32, height: u32, format: ColorFormat) -> (r: Option<usize>)
        ensures
            r is Some <==> width * height * format.spec_bytes_per_pixel() <= usize::MAX,
            r matches Some(n) ==> n == width * height * format.spec_bytes_per_pixel(),
    {
        let w = width as u64;
        let h = height as u64;
        assert(w * h <= u32::MAX * u32::MAX) by (nonlinear_arith)
            requires
                w <= u32::MAX,
                h <= u32::MAX,
        ;
        let wh = w * h;
        let bpp = format.bytes_per_pixel() as u64;
        if wh > (usize::MAX as u64) / bpp {
            assert(wh * bpp > usize::MAX) by (nonlinear_arith)
                requires
                    wh > (usize::MAX as u64) / bpp,
                    bpp > 0,
            ;
            return None;
        }
        assert(wh * bpp <= usize::MAX) by (nonlinear_arith)
            requires
                wh <= (usize::MAX as u64) / bpp,
                bpp > 0,
        ;
        Some((wh * bpp) as usize)
    }

    /// A buffer at physical address `location`; none for a zero height or the
    /// `RGB8` format, which cannot be rendered to.
    pub fn new(width: u32, height: u32, format: ColorFormat, location: u32) -> (r: Option<
        ColorBuffer,
    >)
        ensures
            r is Some <==> height >= 1 && !(format is RGB8),
            r matches Some(c) ==> c.spec_width() == width && c.spec_height() == height
                && c.spec_format() == format && c.spec_location() == location,
    {
        if height == 0 {
            return None;
        }
        match format {
            ColorFormat::RGB8 => None,
            _ => Some(ColorBuffer { width, height, format, location }),
        }
    }

    pub fn dim(&self) -> (r: u32)
        ensures
            r == spec_dim(self.spec_width(), self.spec_height()),
    {
        dim(self.width, self.height)
    }
}

/// The commands that make `cb` the render target.
pub open spec fn colorbuffer_words(cb: ColorBuffer) -> Seq<u32> {
    seq![
        2u32,
        full_write(GPUREG_COLORBUFFER_FORMAT),
        cb.spec_location() >> 3u32,
        full_write(GPUREG_COLORBUFFER_LOC),
        0xFu32,
        full_write(GPUREG_COLORBUFFER_READ),
        0xFu32,
        full_write(GPUREG_COLORBUFFER_WRITE),
        cb.spec_width() | (((cb.spec_height() - 1) as u32) << 12u32),
        full_write(GPUREG_FRAMEBUFFER_DIM),
    ]
}

impl GpuCmdByMut for ColorBuffer {
    open spec fn emitted(self) -> Seq<u32> {
        colorbuffer_words(self)
    }

    fn cmd_by_mut(self, buf: &mut Vec<u32>) {
        proof {
            use_type_invariant(&self);
        }
        buf.push(self.format.gpureg_param());
        buf.push(GPUREG_COLORBUFFER_FORMAT | mask(0xF));
        buf.push(self.location >> 3u32);
        buf.push(GPUREG_COLORBUFFER_LOC | mask(0xF));
        buf.push(0xF);
        buf.push(GPUREG_COLORBUFFER_READ | mask(0xF));
        buf.push(0xF);
        buf.push(GPUREG_COLORBUFFER_WRITE | mask(0xF));
        buf.push(self.width | ((self.height - 1) << 12u32));
        buf.push(GPUREG_FRAMEBUFFER_DIM | mask(0xF));
    }
}

} // verus!
