//! Q16.16 fixed-point helpers and the two-component vector.
use vstd::prelude::*;

verus! {

/// One pixel in Q16.16.
pub const FIXED_ONE: i32 = 0x10000;

/// A pair of Q16.16 (or plain integer) coordinates.
#[derive(Clone, Copy, Debug, PartialEq, Eq, Structural)]
pub struct Vector2 {
    pub x: i32,
    pub y: i32,
}

impl Vector2 {
    pub fn new() -> (r: Vector2)
        ensures
            r.x == 0,
            r.y == 0,
    {
        Vector2 { x: 0, y: 0 }
    }
}

/// Whole pixels of a Q16.16 value (arithmetic shift, rounds toward minus infinity).
pub open spec fn from_fixed_spec(v: i32) -> i32 {
    v >> 16u32
}

/// Pixels to Q16.16; the engine's 32-bit registers wrap.
pub open spec fn to_fixed_spec(p: i32) -> i32 {
    vstd::wrapping::i32_specs::wrapping_mul(p, 0x10000)
}

/// Whole pixels of a Q16.16 value.
pub fn from_fixed(v: i32) -> (r: i32)
    ensures
        r == from_fixed_spec(v),
        -0x8000 <= r <= 0x7FFF,
{
    assert(-0x8000 <= (v >> 16u32) <= 0x7FFF) by (bit_vector);
    v >> 16u32
}

/// Pixels to Q16.16.
pub fn to_fixed(p: i32) -> (r: i32)
    ensures
        r == to_fixed_spec(p),
        -0x8000 <= p <= 0x7FFF ==> r == p * 0x10000,
{
    let r = p.wrapping_mul(0x10000);
    proof {
        if -0x8000 <= p <= 0x7FFF {
            assert(-0x8000_0000 <= p * 0x10000 <= 0x7FFF_0000) by (nonlinear_arith)
                requires -0x8000 <= p <= 0x7FFF;
            assert(vstd::wrapping::i32_specs::signed_crop(p * 0x10000) == p * 0x10000) by {
                let x = p * 0x10000;
                if x >= 0 {
                    assert(x % 0x1_0000_0000 == x);
                } else {
                    assert(x % 0x1_0000_0000 == x + 0x1_0000_0000);
                }
            }
        }
    }
    r
}

} // verus!
