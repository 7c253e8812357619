//! Display mapping: the shade a scalar-field value is drawn with, the green
//! channel carrying the density, and the packing of clamped 8-bit channels
//! into one little-endian RGBA word. Conversion of a channel's double to an
//! integer is the caller's saturating cast; clamping and packing are integer
//! logic and are verified here.

use vstd::prelude::*;
use crate::bits;

verus! {

/// The pattern of 1.75, the field shade's offset.
pub const SHADE_OFFSET: u64 = 0x3FFC_0000_0000_0000;

/// The pattern of 255.0, the channel scale.
pub const CHANNEL_SCALE: u64 = 0x406F_E000_0000_0000;

/// The pattern of 3.5, the field shade's divisor.
pub const SHADE_RANGE: u64 = 0x400C_0000_0000_0000;

/// The shade of a scalar-field value `f`: `(f + 1.75) * 255.0 / 3.5`,
/// mapping field values in `[-1.75, 1.75]` onto the channel range.
pub open spec fn shade_bits(f: u64) -> u64 {
    bits::div_bits(bits::mul_bits(bits::add_bits(f, SHADE_OFFSET), CHANNEL_SCALE), SHADE_RANGE)
}

/// The green channel of a density value `d`: `d * 255.0`.
pub open spec fn green_bits(d: u64) -> u64 {
    bits::mul_bits(d, CHANNEL_SCALE)
}

/// A channel value clamped to the 8-bit range.
pub open spec fn clamp255(v: u32) -> u32 {
    if v > 255 {
        255
    } else {
        v
    }
}

/// One packed RGBA word: full alpha, red in the low byte, then green and
/// blue, each channel clamped to 255.
pub open spec fn packed_rgba(r: u32, g: u32, b: u32) -> u32 {
    0xFF00_0000u32 | clamp255(r) | (clamp255(g) << 8u32) | (clamp255(b) << 16u32)
}

/// Computes the shade of a scalar-field value.
pub fn shade_of_field(f: u64) -> (r: u64)
    ensures
        r == shade_bits(f),
{
    bits::fdiv(bits::fmul(bits::fadd(f, SHADE_OFFSET), CHANNEL_SCALE), SHADE_RANGE)
}

/// Computes the green channel of a density value.
pub fn green_of_density(d: u64) -> (r: u64)
    ensures
        r == green_bits(d),
{
    bits::fmul(d, CHANNEL_SCALE)
}

/// Computes the shade of every sample of a field, in order.
pub fn shades_of(field: &Vec<u64>) -> (r: Vec<u64>)
    ensures
        r@.len() == field@.len(),
        forall|i: int| 0 <= i < field@.len() ==> r@[i] == shade_bits(field@[i]),
{
    let n = field.len();
    let mut out: Vec<u64> = Vec::new();
    let mut i: usize = 0;
    while i < n
        invariant
            n == field@.len(),
            i <= n,
            out@.len() == i,
            forall|j: int| 0 <= j < i ==> out@[j] == shade_bits(field@[j]),
        decreases n - i,
    {
        let s = shade_of_field(field[i]);
        out.push(s);
        i = i + 1;
    }
    out
}

/// Computes the green channel of every cell of a density grid, in order.
pub fn greens_of(densities: &Vec<u64>) -> (r: Vec<u64>)
    ensures
        r@.len() == densities@.len(),
        forall|i: int| 0 <= i < densities@.len() ==> r@[i] == green_bits(densities@[i]),
{
    let n = densities.len();
    let mut out: Vec<u64> = Vec::new();
    let mut i: usize = 0;
    while i < n
        invariant
            n == densities@.len(),
            i <= n,
            out@.len() == i,
            forall|j: int| 0 <= j < i ==> out@[j] == green_bits(densities@[j]),
        decreases n - i,
    {
        let g = green_of_density(densities[i]);
        out.push(g);
        i = i + 1;
    }
    out
}

/// Packs three channel values into one RGBA word.
pub fn pack_rgba(r: u32, g: u32, b: u32) -> (p: u32)
    ensures
        p == packed_rgba(r, g, b),
{
    let rc: u32 = if r > 255 {
        255
    } else {
        r
    };
    let gc: u32 = if g > 255 {
        255
    } else {
        g
    };
    let bc: u32 = if b > 255 {
        255
    } else {
        b
    };
    0xFF00_0000u32 | rc | (gc << 8u32) | (bc << 16u32)
}

} // verus!
