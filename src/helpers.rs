//! Fixed-width arithmetic shared by the synthesis pipeline: floor shifts,
//! saturation to 16 bits, wrap-around to 16 or 17 bits and volume scaling.

use vstd::prelude::*;
use vstd::arithmetic::div_mod::lemma_fundamental_div_mod_converse;

verus! {

/// Saturation of a value to the signed 16-bit range.
pub open spec fn clamp16_spec(x: int) -> int {
    if x < -32768 {
        -32768
    } else if x > 32767 {
        32767
    } else {
        x
    }
}

/// Two's-complement wrap-around of a value to 16 bits.
pub open spec fn wrap16_spec(x: int) -> int {
    (x + 0x8000) % 0x10000 - 0x8000
}

/// Two's-complement wrap-around of a value to 17 bits.
pub open spec fn wrap17_spec(x: int) -> int {
    (x + 0x10000) % 0x20000 - 0x10000
}

/// A register byte read as a signed 8-bit number.
pub open spec fn signed_byte(v: u8) -> int {
    if v < 128 {
        v as int
    } else {
        v as int - 256
    }
}

/// `x * volume`, with `volume` a signed Q.7 byte, shifted right by 7 (floor).
pub open spec fn scale_volume(x: int, volume: u8) -> int {
    (x * signed_byte(volume)) / 128
}

/// The value with its lowest bit cleared (two's complement, so rounding down).
pub open spec fn even_floor(x: int) -> int {
    (x / 2) * 2
}

/// One step of the saturating 17-bit accumulator of the mixer.
pub open spec fn mix_step(acc: int, x: int) -> int {
    clamp16_spec(wrap17_spec(acc + x))
}

pub open spec fn in_i16(x: int) -> bool {
    -32768 <= x <= 32767
}

/// Floor division keeps bounds.
pub proof fn lemma_div_bounds(x: int, lo: int, hi: int, d: int)
    requires
        d > 0,
        lo <= x <= hi,
    ensures
        lo / d <= x / d <= hi / d,
{
    vstd::arithmetic::div_mod::lemma_div_is_ordered(lo, x, d);
    vstd::arithmetic::div_mod::lemma_div_is_ordered(x, hi, d);
}

/// Floor division, the same as an arithmetic right shift when `d` is a power of two.
pub fn floor_div(x: i64, d: i64) -> (r: i64)
    requires
        d > 0,
        x > i64::MIN,
    ensures
        r == x / d,
{
    if x >= 0 {
        x / d
    } else {
        let q = (-x - 1) / d;
        proof {
            let y: int = -x - 1;
            let dd: int = d as int;
            let qq: int = q as int;
            let m: int = y % dd;
            vstd::arithmetic::div_mod::lemma_fundamental_div_mod(y, dd);
            vstd::arithmetic::div_mod::lemma_mod_bound(y, dd);
            assert(x == (-qq - 1) * dd + (dd - 1 - m)) by (nonlinear_arith)
                requires
                    y == dd * qq + m,
                    y == -x - 1,
            ;
            lemma_fundamental_div_mod_converse(x as int, dd, -qq - 1, dd - 1 - m);
        }
        -q - 1
    }
}

/// Saturates a value to the signed 16-bit range.
pub fn clamp16(x: i64) -> (r: i32)
    ensures
        r == clamp16_spec(x as int),
        in_i16(r as int),
{
    if x < -32768 {
        -32768
    } else if x > 32767 {
        32767
    } else {
        x as i32
    }
}

/// Wraps a value to 16 bits, as a cast to `i16` does.
pub fn wrap16(x: i64) -> (r: i32)
    requires
        -0x4000_0000 <= x <= 0x4000_0000,
    ensures
        r == wrap16_spec(x as int),
        in_i16(r as int),
{
    let m = (x + 0x8000 + 0x4001_0000) % 0x10000;
    proof {
        vstd::arithmetic::div_mod::lemma_mod_multiples_vanish(0x4001, x + 0x8000, 0x10000);
    }
    (m - 0x8000) as i32
}

/// Wraps a value to 17 bits, as the chip's 17-bit accumulators do.
pub fn wrap17(x: i64) -> (r: i32)
    requires
        -0x4000_0000 <= x <= 0x4000_0000,
    ensures
        r == wrap17_spec(x as int),
        -0x10000 <= r < 0x10000,
{
    let m = (x + 0x10000 + 0x4002_0000) % 0x20000;
    proof {
        vstd::arithmetic::div_mod::lemma_mod_multiples_vanish(0x2001, x + 0x10000, 0x20000);
    }
    (m - 0x10000) as i32
}

/// Scales a sample by a signed Q.7 volume byte.
pub fn multiply_volume(value: i32, volume: u8) -> (r: i32)
    requires
        -0x10000 <= value <= 0x10000,
    ensures
        r == scale_volume(value as int, volume),
        -0x10000 <= r <= 0x10000,
        in_i16(value as int) ==> -0x8000 <= r <= 0x8000,
{
    let v: i64 = if volume < 128 { volume as i64 } else { volume as i64 - 256 };
    assert(-0x10000 * 128 <= value * v <= 0x10000 * 128) by (nonlinear_arith)
        requires -0x10000 <= value <= 0x10000, -128 <= v <= 127;
    let r = floor_div(value as i64 * v, 128);
    proof {
        lemma_div_bounds(value * v, -8388608, 8388608, 128);
        if in_i16(value as int) {
            assert(-4194176 <= value * v <= 4194304) by (nonlinear_arith)
                requires -32768 <= value <= 32767, -128 <= v <= 127;
            lemma_div_bounds(value * v, -4194176, 4194304, 128);
        }
    }
    r as i32
}

/// Clears the lowest bit of a value.
pub fn clear_low_bit(x: i32) -> (r: i32)
    ensures
        r == even_floor(x as int),
        x - 1 <= r <= x,
{
    let h = floor_div(x as i64, 2);
    (h * 2) as i32
}

/// One step of the saturating 17-bit accumulator of the mixer.
pub fn mix(acc: i32, x: i32) -> (r: i32)
    requires
        in_i16(acc as int),
        -0x10000 <= x <= 0x10000,
    ensures
        r == mix_step(acc as int, x as int),
        in_i16(r as int),
{
    clamp16(wrap17(acc as i64 + x as i64) as i64)
}

} // verus!
