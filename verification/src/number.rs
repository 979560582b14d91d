//! Double-precision numbers, carried as their IEEE 754 bit patterns.
//!
//! The library never computes with numbers; it passes them on and, for
//! choices, compares them.  Two patterns denote equal numbers when neither is
//! a NaN and they are the same pattern or both a zero.

use vstd::prelude::*;

verus! {

/// All bits but the sign.
pub const MAGNITUDE: u64 = 0x7fff_ffff_ffff_ffff;

/// The magnitude of the infinities; every greater magnitude is a NaN.
pub const INFINITY: u64 = 0x7ff0_0000_0000_0000;

/// The pattern without its sign.
pub open spec fn magnitude(bits: u64) -> u64 {
    bits & MAGNITUDE
}

/// The pattern denotes no number.
pub open spec fn is_nan(bits: u64) -> bool {
    magnitude(bits) > INFINITY
}

/// The pattern denotes zero, of either sign.
pub open spec fn is_zero(bits: u64) -> bool {
    magnitude(bits) == 0
}

/// The two patterns denote equal numbers.
pub open spec fn equal_numbers(a: u64, b: u64) -> bool {
    !is_nan(a) && !is_nan(b) && (a == b || (is_zero(a) && is_zero(b)))
}

/// Whether the two patterns denote equal numbers.
pub fn numbers_equal(a: u64, b: u64) -> (r: bool)
    ensures
        r == equal_numbers(a, b),
{
    let ma = a & MAGNITUDE;
    let mb = b & MAGNITUDE;
    ma <= INFINITY && mb <= INFINITY && (a == b || (ma == 0 && mb == 0))
}

} // verus!
