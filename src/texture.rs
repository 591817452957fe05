//! Texture descriptors and the sizes they imply.
use vstd::prelude::*;

verus! {

/// Texel format.
#[derive(Clone, Copy, Debug, PartialEq, Eq, Structural)]
pub enum Format {
    RGBA8,
    RGB8,
    RGBA5551,
    RGB565,
    RGBA4,
    LA8,
    HILO8,
    L8,
    A8,
    LA4,
    L4,
    A4,
    ETC1,
    ETC1A4,
}

impl Format {
    pub open spec fn spec_bitsize(self) -> usize {
        match self {
            Format::RGBA8 => 32,
            Format::RGB8 => 24,
            Format::RGBA5551 | Format::RGB565 | Format::RGBA4 | Format::LA8 | Format::HILO8 => 16,
            Format::L8 | Format::A8 | Format::LA4 | Format::ETC1A4 => 8,
            Format::L4 | Format::A4 | Format::ETC1 => 4,
        }
    }

    /// Bits per texel.
    pub fn bitsize(self) -> (r: usize)
        ensures
            r == self.spec_bitsize(),
    {
        match self {
            Format::RGBA8 => 32,
            Format::RGB8 => 24,
            Format::RGBA5551 | Format::RGB565 | Format::RGBA4 | Format::LA8 | Format::HILO8 => 16,
            Format::L8 | Format::A8 | Format::LA4 | Format::ETC1A4 => 8,
            Format::L4 | Format::A4 | Format::ETC1 => 4,
        }
    }
}

/// Texture kind.
#[derive(Clone, Copy, Debug, PartialEq, Eq, Structural)]
pub enum Mode {
    Ordinary,
    CubeMap,
    Shadow2d,
    Projection,
    ShadowCube,
    Disabled,
}

/// Face of a texture.
#[derive(Clone, Copy, Debug, PartialEq, Eq, Structural)]
pub enum Face {
    D2,
}

/// A rectangle of texels.
#[derive(Clone, Copy, Default, Debug)]
pub struct Rect {
    pub x: u32,
    pub y: u32,
    pub w: u32,
    pub h: u32,
}

/// Size, mip levels, format and placement of a texture.
#[derive(Clone, Copy, Debug)]
pub struct TextureDescriptor {
    pub width: u16,
    pub height: u16,
    pub max_mip: u8,
    pub format: Format,
    pub mode: Mode,
    pub vram: bool,
}

/// Why a texture cannot be made.
#[derive(Clone, Copy, Debug, PartialEq, Eq, Structural)]
pub enum Error {
    ModeNotSupported,
    IncorrectSideLength,
}

/// A side length the hardware takes: a power of two from 8 to 1024.
pub open spec fn spec_valid_size(size: u16) -> bool {
    size == 8 || size == 16 || size == 32 || size == 64 || size == 128 || size == 256 || size
        == 512 || size == 1024
}

/// Whether `size` is a power of two from 8 to 1024.
pub fn valid_size(size: u16) -> (r: bool)
    ensures
        r == spec_valid_size(size),
{
    if size < 8 || size > 1024 {
        return false;
    }
    let r = size & (size - 1) == 0;
    assert(r == spec_valid_size(size)) by (bit_vector)
        requires
            8 <= size <= 1024,
            r == (size & ((size - 1) as u16) == 0),
    ;
    r
}

impl TextureDescriptor {
    pub open spec fn spec_bytesize_mip0(self) -> int {
        self.format.spec_bitsize() * self.width * self.height / 8
    }

    /// Bytes of the full-size level.
    pub fn bytesize_mip0(&self) -> (r: usize)
        requires
            self.format.spec_bitsize() * self.width * self.height <= usize::MAX,
        ensures
            r == self.spec_bytesize_mip0(),
    {
        let b = self.format.bitsize();
        let w = self.width as usize;
        let h = self.height as usize;
        assert(b * w <= b * w * h || h == 0) by (nonlinear_arith)
            requires
                b >= 4,
                w >= 0,
                h >= 0,
        ;
        if h == 0 {
            assert(b * w * h == 0) by (nonlinear_arith)
                requires
                    h == 0,
            ;
            return 0;
        }
        let t = b * w * h;
        assert(t >> 3usize == t / 8) by (bit_vector);
        t >> 3usize
    }

    /// Bytes of mip level `mip_level` of a texture whose full-size level has
    /// `bytesize` bytes: each level is a quarter of the one before.
    pub fn bytesize_mip0_to_mipn(bytesize: usize, mip_level: usize) -> (r: usize)
        requires
            mip_level < 16,
        ensures
            r == bytesize >> ((2 * mip_level) as usize),
    {
        bytesize >> (2 * mip_level)
    }

    pub open spec fn spec_bytesize_total(self) -> int {
        let size = self.spec_bytesize_mip0() as usize;
        (size - (size >> ((2 * (self.max_mip + 1)) as usize))) * 4 / 3
    }

    /// Bytes of all levels `0..=max_mip` together.
    pub fn bytesize_total(&self) -> (r: usize)
        requires
            self.max_mip < 15,
            self.format.spec_bitsize() * self.width * self.height <= usize::MAX,
            self.spec_bytesize_mip0() * 4 <= usize::MAX,
        ensures
            r == self.spec_bytesize_total(),
    {
        let size = self.bytesize_mip0();
        let last = TextureDescriptor::bytesize_mip0_to_mipn(size, self.max_mip as usize + 1);
        let sh: usize = 2 * (self.max_mip as usize + 1);
        assert(size >> sh <= size) by (bit_vector);
        (size - last) * 4 / 3
    }

    /// What making a texture of this descriptor takes: its byte size, or why
    /// it cannot be made (only ordinary 2D textures with side lengths that
    /// `valid_size` takes are supported).
    pub fn texture_size(&self) -> (r: Result<usize, Error>)
        requires
            self.max_mip < 15,
        ensures
            r == Err::<usize, Error>(Error::ModeNotSupported) <==> !(self.mode is Ordinary),
            r == Err::<usize, Error>(Error::IncorrectSideLength) <==> (self.mode is Ordinary && !(
            spec_valid_size(self.width) && spec_valid_size(self.height))),
            r matches Ok(n) ==> n == self.spec_bytesize_total(),
    {
        match self.mode {
            Mode::Ordinary => {},
            _ => return Err(Error::ModeNotSupported),
        }
        if !valid_size(self.width) || !valid_size(self.height) {
            return Err(Error::IncorrectSideLength);
        }
        let b = self.format.bitsize();
        let w = self.width as usize;
        let h = self.height as usize;
        assert(b * w * h <= 32 * 1024 * 1024) by (nonlinear_arith)
            requires
                b <= 32,
                w <= 1024,
                h <= 1024,
        ;
        Ok(self.bytesize_total())
    }
}

} // verus!
