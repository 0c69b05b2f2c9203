//! Single-precision numbers by their bit pattern.
//!
//! The library never computes with such numbers; it carries them (a sampling
//! temperature, the components of an embedding) and, in one place, orders them.
//! The order of two patterns is read off the integers: sign in the top bit,
//! magnitude in the other thirty-one.

use vstd::prelude::*;

verus! {

/// The first pattern with the sign bit set.
pub const SIGN_BIT: u32 = 0x8000_0000;

/// The magnitude of positive infinity; larger magnitudes are not numbers.
pub const INFINITY_MAGNITUDE: u32 = 0x7f80_0000;

/// The pattern with the sign bit cleared.
pub open spec fn magnitude(bits: u32) -> int {
    if bits >= SIGN_BIT {
        bits - SIGN_BIT
    } else {
        bits as int
    }
}

/// True when the pattern stands for no number (NaN).
pub open spec fn is_nan(bits: u32) -> bool {
    magnitude(bits) > INFINITY_MAGNITUDE
}

/// An integer that orders the patterns as the numbers they stand for are ordered:
/// both zeros fall on 0, negative numbers on the negated magnitude.
pub open spec fn ordinal(bits: u32) -> int {
    if bits >= SIGN_BIT {
        -magnitude(bits)
    } else {
        magnitude(bits)
    }
}

/// The comparison `a > b` on the numbers: false as soon as either is NaN.
pub open spec fn greater(a: u32, b: u32) -> bool {
    !is_nan(a) && !is_nan(b) && ordinal(a) > ordinal(b)
}

fn ordinal_of(bits: u32) -> (o: Option<i64>)
    ensures
        o is None <==> is_nan(bits),
        o is Some ==> o->0 == ordinal(bits),
{
    let negative: bool = bits >= SIGN_BIT;
    let mag: u32 = if negative {
        bits - SIGN_BIT
    } else {
        bits
    };
    if mag > INFINITY_MAGNITUDE {
        None
    } else if negative {
        Some(0 - (mag as i64))
    } else {
        Some(mag as i64)
    }
}

/// Decides `a > b` for two numbers given by their bit patterns.
pub fn is_greater(a: u32, b: u32) -> (gt: bool)
    ensures
        gt == greater(a, b),
{
    match (ordinal_of(a), ordinal_of(b)) {
        (Some(x), Some(y)) => x > y,
        _ => false,
    }
}

/// Against a positive threshold that is a number, "greater" is a plain range of patterns.
pub proof fn lemma_greater_than_positive(a: u32, threshold: u32)
    requires
        threshold <= INFINITY_MAGNITUDE,
    ensures
        greater(a, threshold) <==> threshold < a <= INFINITY_MAGNITUDE,
{
}

} // verus!
