//! Codec of the compiled-shader container (DVLB): the shared program section
//! (DVLP) and the shader entries (DVLE).
use vstd::prelude::*;

pub mod dvlb;
pub mod dvle;
pub mod dvlp;

verus! {

#[verifier::external_type_specification]
#[verifier::external_body]
pub struct ExPodCastError(bytemuck::PodCastError);

#[verifier::external_type_specification]
#[verifier::external_body]
pub struct ExUtf8Error(std::str::Utf8Error);

/// Why a container could not be parsed.
#[derive(Debug)]
pub enum Error {
    /// The bytes could not be viewed as little-endian words.
    BytemuckPodcast(bytemuck::PodCastError),
    /// A header, table or name lies (partly) past the end of the data.
    UnexpectedEof,
    /// The geometry-shader mode code is not one of the three known ones.
    BadGshMode,
    /// A uniform name is not valid UTF-8.
    Utf8Error(std::str::Utf8Error),
    /// An output-table row names an output register past the seventh.
    BadOutputRegister,
}

/// The kind of an error, without the values that the outside errors carry.
#[derive(PartialEq, Eq, Structural, Clone, Copy, Debug)]
pub enum Failure {
    Cast,
    Eof,
    GshMode,
    Utf8,
    OutputRegister,
}

/// The kind of `e`.
pub open spec fn failure_of(e: Error) -> Failure {
    match e {
        Error::BytemuckPodcast(_) => Failure::Cast,
        Error::UnexpectedEof => Failure::Eof,
        Error::BadGshMode => Failure::GshMode,
        Error::Utf8Error(_) => Failure::Utf8,
        Error::BadOutputRegister => Failure::OutputRegister,
    }
}

/// The stage a shader entry runs in.
#[derive(Clone, Copy, Debug, PartialEq, Eq, Structural)]
pub enum Kind {
    Vertex,
    Geometry,
}

/// How a geometry shader receives its vertices.
#[derive(Clone, Copy, Debug, PartialEq, Eq, Structural)]
pub enum GshMode {
    Point,
    VariablePrim,
    FixedPrim,
}

/// The mode that code `v` stands for, if any.
pub open spec fn spec_gsh_mode(v: u32) -> Option<GshMode> {
    if v == 0 {
        Some(GshMode::Point)
    } else if v == 1 {
        Some(GshMode::VariablePrim)
    } else if v == 2 {
        Some(GshMode::FixedPrim)
    } else {
        None
    }
}

impl GshMode {
    /// Decodes a mode code: 0, 1 and 2 are known, anything else is `BadGshMode`.
    pub fn try_from(value: u32) -> (r: Result<GshMode, Error>)
        ensures
            r is Ok <==> spec_gsh_mode(value) is Some,
            r matches Ok(m) ==> spec_gsh_mode(value) == Some(m),
            r matches Err(e) ==> e is BadGshMode,
    {
        match value {
            0 => Ok(GshMode::Point),
            1 => Ok(GshMode::VariablePrim),
            2 => Ok(GshMode::FixedPrim),
            _ => Err(Error::BadGshMode),
        }
    }
}

/// What `std::str::from_utf8` makes of `b`: the characters, or `None` when
/// `b` is not valid UTF-8.
pub uninterp spec fn utf8_decode(b: Seq<u8>) -> Option<Seq<char>>;

/// Relies on `std::str::from_utf8`: it succeeds exactly on valid UTF-8 and
/// then yields the decoded characters, which depend on the bytes alone.
#[verifier::external_body]
pub(crate) fn decode_utf8(b: &[u8]) -> (r: Result<String, std::str::Utf8Error>)
    ensures
        r is Ok <==> utf8_decode(b@) is Some,
        r matches Ok(s) ==> utf8_decode(b@) == Some(s@),
{
    match std::str::from_utf8(b) {
        Ok(s) => Ok(s.to_string()),
        Err(e) => Err(e),
    }
}

/// The little-endian word made of bytes `b[4i..4i+4]`.
pub open spec fn le_word(b: Seq<u8>, i: int) -> u32 {
    (b[4 * i] as u32) | ((b[4 * i + 1] as u32) << 8u32) | ((b[4 * i + 2] as u32) << 16u32) | ((b[4
        * i + 3] as u32) << 24u32)
}

/// The bytes read as little-endian words (a trailing part word is dropped).
pub open spec fn le_words(b: Seq<u8>) -> Seq<u32> {
    Seq::new(b.len() / 4, |i: int| le_word(b, i))
}

/// Relies on `bytemuck::try_cast_slice`: on success the words cover exactly
/// the bytes, reinterpreted in place, which on the little-endian targets of
/// this library (the console's ARM11, x86 hosts) makes each word the
/// little-endian value of its four bytes; a length that is not a multiple of
/// four is always refused (a slice that is not four-byte aligned is refused too).
#[verifier::external_body]
pub(crate) fn cast_words<'a>(b: &'a [u8]) -> (r: Result<&'a [u32], bytemuck::PodCastError>)
    ensures
        r matches Ok(w) ==> w@.len() * 4 == b@.len() && w@ == le_words(b@),
        b@.len() % 4 != 0 ==> r is Err,
{
    bytemuck::try_cast_slice::<u8, u32>(b)
}

} // verus!
