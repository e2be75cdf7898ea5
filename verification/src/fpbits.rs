//! Integer-only interpretation of IEEE-754 bit patterns.
//!
//! The old header generation stores its point count as a 32-bit float. The
//! count it denotes — the float truncated toward zero, clamped to an
//! unsigned range — is recovered here purely from the bit pattern.

use vstd::prelude::*;

verus! {

/// The unsigned point count denoted by a 32-bit IEEE-754 bit pattern:
/// truncation toward zero, saturating at `u32::MAX`, with zero for negative
/// values and NaN and `u32::MAX` for infinity.
pub open spec fn f32_count(bits: u32) -> u32 {
    let exp = (bits >> 23) & 0xff;
    let frac = bits & 0x7f_ffff;
    if bits >> 31 != 0 {
        0
    } else if exp == 255 {
        if frac == 0 {
            u32::MAX
        } else {
            0
        }
    } else if exp < 127 {
        0
    } else if exp >= 159 {
        u32::MAX
    } else {
        let m = (frac | 0x80_0000) as u64;
        if exp <= 150 {
            (m >> ((150 - exp) as u64)) as u32
        } else {
            (m << ((exp - 150) as u64)) as u32
        }
    }
}

/// Recovers the point count from a float's bit pattern, as [`f32_count`].
pub fn f32_bits_to_count(bits: u32) -> (r: u32)
    ensures
        r == f32_count(bits),
{
    let exp: u32 = (bits >> 23) & 0xff;
    let frac: u32 = bits & 0x7f_ffff;
    if bits >> 31 != 0 {
        0
    } else if exp == 255 {
        if frac == 0 {
            u32::MAX
        } else {
            0
        }
    } else if exp < 127 {
        0
    } else if exp >= 159 {
        u32::MAX
    } else {
        assert(frac <= 0x7f_ffff) by (bit_vector)
            requires
                frac == bits & 0x7f_ffff,
        ;
        assert(frac | 0x80_0000 <= 0xff_ffff) by (bit_vector)
            requires
                frac <= 0x7f_ffff,
        ;
        let m: u64 = (frac | 0x80_0000) as u64;
        if exp <= 150 {
            let sh: u64 = (150 - exp) as u64;
            let v: u64 = m >> sh;
            assert(v <= 0xff_ffff) by (bit_vector)
                requires
                    m <= 0xff_ffff && v == m >> sh,
            ;
            v as u32
        } else {
            let sh: u64 = (exp - 150) as u64;
            let v: u64 = m << sh;
            assert(v <= 0xffff_ff00) by (bit_vector)
                requires
                    m <= 0xff_ffff && sh <= 8 && v == m << sh,
            ;
            v as u32
        }
    }
}

} // verus!
