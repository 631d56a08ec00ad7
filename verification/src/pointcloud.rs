//! Point clouds: the size the native layer reports and colour packing.

use vstd::prelude::*;

verus! {

/// Width or height of a point cloud from the native layer's signed count: a
/// negative count reads as zero.
pub fn clamp_dimension(raw: i32) -> (r: u32)
    ensures
        raw < 0 ==> r == 0,
        raw >= 0 ==> r == raw,
{
    if raw < 0 {
        0
    } else {
        raw as u32
    }
}

/// Colour packed into one 32-bit word: red in the top byte, then green, blue and
/// alpha in the low byte.
pub open spec fn rgba32(r: u8, g: u8, b: u8, a: u8) -> int {
    r as int * 0x100_0000 + g as int * 0x1_0000 + b as int * 0x100 + a as int
}

/// Packs a colour as `0xRRGGBBAA`, the layout the viewer expects.
pub fn rgba32_from_rgba(r: u8, g: u8, b: u8, a: u8) -> (c: u32)
    ensures
        c == rgba32(r, g, b, a),
{
    let c = ((r as u32) << 24) | ((g as u32) << 16) | ((b as u32) << 8) | (a as u32);
    assert(c == r as u32 * 0x100_0000 + g as u32 * 0x1_0000 + b as u32 * 0x100 + a as u32)
        by (bit_vector)
        requires
            c == ((r as u32) << 24) | ((g as u32) << 16) | ((b as u32) << 8) | (a as u32),
    ;
    c
}

/// Each channel can be read back from the packed word: red from bits 24..32,
/// green from 16..24, blue from 8..16 and alpha from 0..8.
pub proof fn lemma_rgba32_channels(r: u8, g: u8, b: u8, a: u8)
    ensures
        0 <= rgba32(r, g, b, a) <= u32::MAX,
        ((rgba32(r, g, b, a) as u32) >> 24) as u8 == r,
        ((rgba32(r, g, b, a) as u32) >> 16) as u8 == g,
        ((rgba32(r, g, b, a) as u32) >> 8) as u8 == b,
        (rgba32(r, g, b, a) as u32) as u8 == a,
{
    let c: u32 = (r as u32 * 0x100_0000 + g as u32 * 0x1_0000 + b as u32 * 0x100 + a as u32) as u32;
    assert(r as u32 * 0x100_0000 + g as u32 * 0x1_0000 + b as u32 * 0x100 + a as u32 <= u32::MAX)
        by (bit_vector);
    assert((c >> 24) as u8 == r && (c >> 16) as u8 == g && (c >> 8) as u8 == b && c as u8 == a)
        by (bit_vector)
        requires
            c == (r as u32 * 0x100_0000 + g as u32 * 0x1_0000 + b as u32 * 0x100 + a as u32) as u32,
    ;
}

} // verus!
