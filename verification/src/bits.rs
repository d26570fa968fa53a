//! A model of IEEE 754 binary64 values as their bit patterns.
//!
//! A `u64` here always carries the bits of a double-precision number:
//! one sign bit, eleven exponent bits, fifty-two significand bits.
//! Everything a comparison, a sign test or a finiteness test needs can be
//! read off those bits directly, so this whole module is ordinary verified
//! integer code; no floating-point arithmetic happens here.

use vstd::prelude::*;

verus! {

/// Mask of the sign bit.
pub const SIGN_MASK: u64 = 0x8000_0000_0000_0000;

/// Mask of the magnitude (exponent and significand) bits.
pub const MAG_MASK: u64 = 0x7fff_ffff_ffff_ffff;

/// Bits of positive infinity; any magnitude at or above it is non-finite.
pub const INF_MAG: u64 = 0x7ff0_0000_0000_0000;

/// Bits of positive zero.
pub const POS_ZERO: u64 = 0;

/// The magnitude bits of a value.
pub open spec fn mag_bits(x: u64) -> u64 {
    x & MAG_MASK
}

/// Whether the sign bit is set (the value is negative or negative zero).
pub open spec fn sign_bit_set(x: u64) -> bool {
    x & SIGN_MASK != 0
}

/// A finite value: exponent not all ones.
pub open spec fn is_finite_bits(x: u64) -> bool {
    mag_bits(x) < INF_MAG
}

/// A not-a-number value: exponent all ones with a non-zero significand.
pub open spec fn is_nan_bits(x: u64) -> bool {
    mag_bits(x) > INF_MAG
}

/// A zero of either sign.
pub open spec fn is_zero_bits(x: u64) -> bool {
    mag_bits(x) == 0
}

/// The key that orders non-NaN values exactly as `<=` orders the doubles
/// they encode: magnitude bits, negated when the sign bit is set. Both
/// zeros map to 0, so negative and positive zero compare equal.
pub open spec fn val_key(x: u64) -> int {
    if sign_bit_set(x) {
        -(mag_bits(x) as int)
    } else {
        mag_bits(x) as int
    }
}

/// Rank used by greedy selection and best tracking: finite values keep
/// their order key, every non-finite value (infinity or NaN) sits above
/// all of them, mutually tied, so it can never be preferred.
pub open spec fn fit_rank(x: u64) -> int {
    if is_finite_bits(x) {
        val_key(x)
    } else {
        0x8000_0000_0000_0000
    }
}

/// The bits of the negated value: the sign bit flipped, nothing else.
pub open spec fn neg_bits(x: u64) -> u64 {
    x ^ SIGN_MASK
}

/// The sign of a value, read from its bits; both zeros count as zero.
#[derive(Clone, Copy, PartialEq, Eq, Structural, Debug)]
pub enum Sign {
    Neg,
    Zero,
    Pos,
}

/// The sign of the value `x` encodes: `Zero` for either zero, otherwise
/// by the sign bit. (A NaN gets the sign of its sign bit; callers that
/// care exclude NaN beforehand.)
pub open spec fn sign_of_bits(x: u64) -> Sign {
    if is_zero_bits(x) {
        Sign::Zero
    } else if sign_bit_set(x) {
        Sign::Neg
    } else {
        Sign::Pos
    }
}

/// `v` multiplied by a sign: positive zero for `Zero`, `v` itself for
/// `Pos`, `v` with the sign bit flipped for `Neg`. Flipping the sign bit
/// is exact IEEE negation, so no arithmetic is needed.
pub open spec fn apply_sign_bits(v: u64, s: Sign) -> u64 {
    match s {
        Sign::Zero => POS_ZERO,
        Sign::Pos => v,
        Sign::Neg => neg_bits(v),
    }
}

/// The magnitude bits never exceed the magnitude mask.
pub proof fn lemma_mag_bound(x: u64)
    by (bit_vector)
    ensures
        x & MAG_MASK <= MAG_MASK,
{
}

/// Whether `x` encodes a finite value.
pub fn is_finite(x: u64) -> (r: bool)
    ensures
        r == is_finite_bits(x),
{
    (x & MAG_MASK) < INF_MAG
}

/// Whether `x` encodes a zero of either sign.
pub fn is_zero(x: u64) -> (r: bool)
    ensures
        r == is_zero_bits(x),
{
    (x & MAG_MASK) == 0
}

/// Order of the encoded values: `val_key(a) <= val_key(b)`, which for
/// non-NaN operands is exactly `<=` on the doubles they encode.
pub fn le_bits(a: u64, b: u64) -> (r: bool)
    ensures
        r == (val_key(a) <= val_key(b)),
{
    let sa = a & SIGN_MASK != 0;
    let sb = b & SIGN_MASK != 0;
    let ma = a & MAG_MASK;
    let mb = b & MAG_MASK;
    if sa && sb {
        mb <= ma
    } else if !sa && !sb {
        ma <= mb
    } else if sa {
        true
    } else {
        ma == 0 && mb == 0
    }
}

/// Strict order of the encoded values.
pub fn lt_bits(a: u64, b: u64) -> (r: bool)
    ensures
        r == (val_key(a) < val_key(b)),
{
    !le_bits(b, a)
}

/// Rank order: `fit_rank(a) <= fit_rank(b)`.
pub fn rank_le(a: u64, b: u64) -> (r: bool)
    ensures
        r == (fit_rank(a) <= fit_rank(b)),
{
    proof {
        lemma_mag_bound(a);
        lemma_mag_bound(b);
    }
    let fa = is_finite(a);
    let fb = is_finite(b);
    if fa && fb {
        le_bits(a, b)
    } else if fa {
        true
    } else {
        !fb
    }
}

/// Strict rank order: `fit_rank(a) < fit_rank(b)`.
pub fn rank_lt(a: u64, b: u64) -> (r: bool)
    ensures
        r == (fit_rank(a) < fit_rank(b)),
{
    proof {
        lemma_mag_bound(a);
        lemma_mag_bound(b);
    }
    let fa = is_finite(a);
    let fb = is_finite(b);
    if fa && fb {
        lt_bits(a, b)
    } else {
        fa && !fb
    }
}

/// The sign of the encoded value, from the bits alone.
pub fn sign_of(x: u64) -> (s: Sign)
    ensures
        s == sign_of_bits(x),
{
    if (x & MAG_MASK) == 0 {
        Sign::Zero
    } else if x & SIGN_MASK != 0 {
        Sign::Neg
    } else {
        Sign::Pos
    }
}

/// `v` multiplied by a sign, as exact bit manipulation.
pub fn apply_sign(v: u64, s: Sign) -> (r: u64)
    ensures
        r == apply_sign_bits(v, s),
{
    match s {
        Sign::Zero => POS_ZERO,
        Sign::Pos => v,
        Sign::Neg => v ^ SIGN_MASK,
    }
}

} // verus!
