//! Ordering of real values by their IEEE 754 single-precision encoding.
//!
//! The engine stores every real number as the 32-bit pattern of its
//! single-precision representation. This module defines, purely over
//! unsigned integers, the comparison that the floating-point type itself
//! performs: not-a-number payloads compare with nothing, the two zero
//! encodings are equal, negative values order by descending magnitude,
//! and non-negative values order by ascending magnitude.

use vstd::prelude::*;

verus! {

/// Encodings at or above this value carry a set sign bit.
pub const SIGN_THRESHOLD: u32 = 0x8000_0000;

/// Largest magnitude of an ordered value: the infinity encoding.
/// Any magnitude strictly above it is a not-a-number payload.
pub const INFINITY_MAGNITUDE: u32 = 0x7f80_0000;

/// The magnitude part of an encoding: everything but the sign bit.
pub open spec fn magnitude(a: u32) -> u32 {
    if a >= SIGN_THRESHOLD {
        (a - SIGN_THRESHOLD) as u32
    } else {
        a
    }
}

/// Whether the encoding's sign bit is set.
pub open spec fn is_negative(a: u32) -> bool {
    a >= SIGN_THRESHOLD
}

/// Whether the encoding is a not-a-number payload, which compares with nothing.
pub open spec fn is_unordered(a: u32) -> bool {
    magnitude(a) > INFINITY_MAGNITUDE
}

/// Whether the encoding denotes zero (either of the two signed zeros).
pub open spec fn is_zero(a: u32) -> bool {
    magnitude(a) == 0
}

/// The strict order on encoded reals, exactly as single precision compares:
/// false whenever either side is a not-a-number payload.
pub open spec fn real_lt(a: u32, b: u32) -> bool {
    if is_unordered(a) || is_unordered(b) {
        false
    } else if is_negative(a) != is_negative(b) {
        is_negative(a) && !(is_zero(a) && is_zero(b))
    } else if is_negative(a) {
        magnitude(b) < magnitude(a)
    } else {
        magnitude(a) < magnitude(b)
    }
}

/// Equality of encoded reals: identical encodings, or the two zeros.
pub open spec fn real_eq(a: u32, b: u32) -> bool {
    !is_unordered(a) && !is_unordered(b) && (a == b || (is_zero(a) && is_zero(b)))
}

/// The non-strict order on encoded reals.
pub open spec fn real_le(a: u32, b: u32) -> bool {
    real_lt(a, b) || real_eq(a, b)
}

/// Executable strict comparison of two encoded reals.
pub fn lt(a: u32, b: u32) -> (r: bool)
    ensures
        r == real_lt(a, b),
{
    let ma = if a >= SIGN_THRESHOLD { a - SIGN_THRESHOLD } else { a };
    let mb = if b >= SIGN_THRESHOLD { b - SIGN_THRESHOLD } else { b };
    if ma > INFINITY_MAGNITUDE || mb > INFINITY_MAGNITUDE {
        false
    } else if (a >= SIGN_THRESHOLD) != (b >= SIGN_THRESHOLD) {
        a >= SIGN_THRESHOLD && !(ma == 0 && mb == 0)
    } else if a >= SIGN_THRESHOLD {
        mb < ma
    } else {
        ma < mb
    }
}

/// Executable non-strict comparison of two encoded reals.
pub fn le(a: u32, b: u32) -> (r: bool)
    ensures
        r == real_le(a, b),
{
    let ma = if a >= SIGN_THRESHOLD { a - SIGN_THRESHOLD } else { a };
    let mb = if b >= SIGN_THRESHOLD { b - SIGN_THRESHOLD } else { b };
    if ma > INFINITY_MAGNITUDE || mb > INFINITY_MAGNITUDE {
        false
    } else if a == b || (ma == 0 && mb == 0) {
        true
    } else {
        lt(a, b)
    }
}

/// A strictly smaller encoded real is also no greater: the strict order
/// is contained in the non-strict one.
pub proof fn lemma_lt_implies_le(a: u32, b: u32)
    requires
        real_lt(a, b),
    ensures
        real_le(a, b),
{
}

/// The strict order on encoded reals is irreflexive.
pub proof fn lemma_lt_irreflexive(a: u32)
    ensures
        !real_lt(a, a),
{
}

/// The non-strict order on encoded reals is transitive.
pub proof fn lemma_le_transitive(a: u32, b: u32, c: u32)
    requires
        real_le(a, b),
        real_le(b, c),
    ensures
        real_le(a, c),
{
}

/// The strict order on encoded reals is transitive.
pub proof fn lemma_lt_transitive(a: u32, b: u32, c: u32)
    requires
        real_lt(a, b),
        real_lt(b, c),
    ensures
        real_lt(a, c),
{
}

/// A strict step followed by a non-strict one stays strict.
pub proof fn lemma_lt_le_transitive(a: u32, b: u32, c: u32)
    requires
        real_lt(a, b),
        real_le(b, c),
    ensures
        real_lt(a, c),
{
}

} // verus!
