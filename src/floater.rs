//! Conversion of single-precision floats, given by their bits, to the GPU's
//! 24-bit float format (1 sign, 7 exponent, 16 mantissa bits).
use vstd::prelude::*;

verus! {

/// The sign bit of the single-precision value with bits `i`.
pub open spec fn sign_of(i: u32) -> u32 {
    i >> 31u32
}

/// The exponent of `i`, rebiased from 127 to 63; it may fall outside `0..=0x7F`.
pub open spec fn rebiased_exponent(i: u32) -> int {
    (((i << 1u32) >> 24u32) as int) - 127 + 63
}

/// The top 16 of the 23 mantissa bits of `i`.
pub open spec fn mantissa_of(i: u32) -> u32 {
    ((i << 9u32) >> 9u32) >> 7u32
}

/// The float24 value of the single-precision value with bits `i`: an exponent
/// below range flushes to a signed zero, one above range saturates to a
/// signed infinity, the mantissa is truncated.
pub open spec fn spec_f24(i: u32) -> u32 {
    if rebiased_exponent(i) < 0 {
        sign_of(i) << 23u32
    } else if rebiased_exponent(i) > 0x7F {
        (sign_of(i) << 23u32) | (0x7Fu32 << 16u32)
    } else {
        (sign_of(i) << 23u32) | ((rebiased_exponent(i) as u32) << 16u32) | mantissa_of(i)
    }
}

/// Converts the bits of a single-precision float to float24.
pub fn f32_bits_to_f24(i: u32) -> (r: u32)
    ensures
        r == spec_f24(i),
        rebiased_exponent(i) < 0 ==> r == sign_of(i) << 23u32,
        rebiased_exponent(i) > 0x7F ==> r == (sign_of(i) << 23u32) | (0x7Fu32 << 16u32),
{
    let mantissa: u32 = ((i << 9u32) >> 9u32) >> 7u32;
    let biased: u32 = (i << 1u32) >> 24u32;
    let sign: u32 = i >> 31u32;
    if biased < 64 {
        return sign << 23u32;
    }
    let exponent: u32 = biased - 64;
    if exponent > 0x7F {
        return (sign << 23u32) | (0x7Fu32 << 16u32);
    }
    (sign << 23u32) | (exponent << 16u32) | mantissa
}

/// Packs four float24 values, x y z w, into three words as the fixed
/// attribute registers take them: `[z>>16 | w<<8, y>>8 | z<<16, x | y<<24]`.
pub fn f24x4_pack(x: u32, y: u32, z: u32, w: u32) -> (r: [u32; 3])
    ensures
        r@ == seq![
            ((z >> 16u32) & 0xFF) | (w << 8u32),
            ((y >> 8u32) & 0xFFFF) | ((z & 0xFFFF) << 16u32),
            x | ((y & 0xFF) << 24u32),
        ],
{
    [((z >> 16u32) & 0xFF) | (w << 8u32), ((y >> 8u32) & 0xFFFF) | ((z & 0xFFFF) << 16u32), x | ((y
        & 0xFF) << 24u32)]
}

} // verus!
