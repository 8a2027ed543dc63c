//! Double floats by their bits.
//!
//! A float crosses this library as the 64 bits of its IEEE 754 binary64 form:
//! one bit of sign, eleven bits of exponent with a bias of 1023, and 52 bits
//! of fraction. The one thing computed here is the float of an integer,
//! which a value gives where a float is asked of an integer.

use vstd::arithmetic::power2::{lemma2_to64, lemma_pow2_unfold, pow2};
use vstd::prelude::*;

verus! {

/// The bit of sign.
pub const SIGN: u64 = 0x8000_0000_0000_0000;

/// The bias of the exponent.
pub const BIAS: u64 = 1023;

/// The number of bits of fraction.
pub const FRACTION_BITS: u64 = 52;

/// The position of the highest bit that is set in `m`; 0 for 0.
pub open spec fn top_bit(m: nat) -> nat
    decreases m,
{
    if m <= 1 {
        0
    } else {
        1 + top_bit(m / 2)
    }
}

/// The magnitude of an integer.
pub open spec fn magnitude(x: i32) -> u64 {
    if x < 0 {
        (-(x as int)) as u64
    } else {
        x as u64
    }
}

/// The bits of the float that is equal to `x`.
///
/// For 0 all bits are zero. Otherwise the exponent is the position `e` of the
/// highest bit of the magnitude, and the fraction is the magnitude without
/// that bit, moved up to the top of the 52 bits.
pub open spec fn float_of_int(x: i32) -> u64 {
    if x == 0 {
        0
    } else {
        let m = magnitude(x);
        let e = top_bit(m as nat) as u64;
        let sign = if x < 0 {
            SIGN
        } else {
            0
        };
        sign | ((BIAS + e) as u64) << FRACTION_BITS | (m ^ (1u64 << e)) << ((FRACTION_BITS - e) as u64)
    }
}

/// A number below `2^(k+1)` has no bit set above position `k`.
proof fn lemma_top_bit_bound(m: nat, k: nat)
    requires
        m < pow2(k + 1),
    ensures
        top_bit(m) <= k,
    decreases k,
{
    if m > 1 {
        lemma_pow2_unfold(k + 1);
        if k == 0 {
            lemma2_to64();
        } else {
            lemma_pow2_unfold(k);
            lemma_top_bit_bound(m / 2, (k - 1) as nat);
        }
    }
}

/// The position of the highest bit that is set in `m`.
fn highest_bit(m: u64) -> (e: u64)
    requires
        m <= 0x8000_0000,
    ensures
        e == top_bit(m as nat),
        e <= 31,
{
    proof {
        lemma2_to64();
        lemma_top_bit_bound(m as nat, 31);
    }
    let mut t: u64 = m;
    let mut e: u64 = 0;
    while t > 1
        invariant
            e + top_bit(t as nat) == top_bit(m as nat),
            top_bit(m as nat) <= 31,
        decreases t,
    {
        t = t / 2;
        e = e + 1;
    }
    e
}

/// The bits of the float that is equal to `x`.
pub fn int_to_float_bits(x: i32) -> (bits: u64)
    ensures
        bits == float_of_int(x),
{
    if x == 0 {
        return 0;
    }
    let m: u64 = if x < 0 {
        (-(x as i64)) as u64
    } else {
        x as u64
    };
    let e = highest_bit(m);
    let sign: u64 = if x < 0 {
        SIGN
    } else {
        0
    };
    sign | (BIAS + e) << FRACTION_BITS | (m ^ (1u64 << e)) << (FRACTION_BITS - e)
}

} // verus!
