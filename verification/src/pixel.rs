//! Packed 24-bit RGB pixels: red in bits 16 to 23, green in bits 8 to 15,
//! blue in bits 0 to 7.

use vstd::prelude::*;

verus! {

/// The red channel of a packed pixel.
pub open spec fn red(p: u32) -> int {
    (p as int / 65536) % 256
}

/// The green channel of a packed pixel.
pub open spec fn green(p: u32) -> int {
    (p as int / 256) % 256
}

/// The blue channel of a packed pixel.
pub open spec fn blue(p: u32) -> int {
    p as int % 256
}

/// The packed pixel with the given channels, each below 256.
pub open spec fn pack_spec(r: int, g: int, b: int) -> int {
    r * 65536 + g * 256 + b
}

/// Packs three channels into one pixel.
pub fn pack(r: u8, g: u8, b: u8) -> (p: u32)
    ensures
        p == pack_spec(r as int, g as int, b as int),
        red(p) == r,
        green(p) == g,
        blue(p) == b,
{
    let p = ((r as u32) << 16) | ((g as u32) << 8) | (b as u32);
    assert(p == (r as u32) * 65536 + (g as u32) * 256 + (b as u32)) by (bit_vector)
        requires
            p == ((r as u32) << 16) | ((g as u32) << 8) | (b as u32),
    ;
    p
}

/// Splits a pixel into its red, green and blue channels. Bits 24 to 31 are
/// ignored.
pub fn unpack(p: u32) -> (c: (u8, u8, u8))
    ensures
        c.0 == red(p),
        c.1 == green(p),
        c.2 == blue(p),
{
    let r = (p >> 16) & 0xff;
    let g = (p >> 8) & 0xff;
    let b = p & 0xff;
    assert(r == (p / 65536) % 256 && g == (p / 256) % 256 && b == p % 256) by (bit_vector)
        requires
            r == (p >> 16) & 0xff,
            g == (p >> 8) & 0xff,
            b == p & 0xff,
    ;
    (r as u8, g as u8, b as u8)
}

} // verus!
