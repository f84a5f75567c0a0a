//! The injectable uniform random source.
//!
//! The engine never owns a random number generator of its own: every draw
//! goes through a caller-supplied implementation of [`RandomSource`], so a
//! run is reproducible exactly when the supplied source is. The trait's
//! contracts are what the engine's guarantees about sampled values rest on;
//! an implementation must honour them (a source backed by any uniform
//! generator does so naturally).

use vstd::prelude::*;

use crate::order::{real_le, real_lt, is_unordered};

verus! {

/// The encoding of one, the upper end of the unit interval.
pub const ONE_ENCODING: u32 = 0x3f80_0000;

/// A pair of encoded reals that can seed a draw: neither end is a
/// not-a-number payload and the lower end is no greater than the upper.
pub open spec fn sane_range(lo: u32, hi: u32) -> bool {
    &&& !is_unordered(lo)
    &&& !is_unordered(hi)
    &&& real_le(lo, hi)
}

/// Where a value drawn from `[lo, hi)` must fall: inside the half-open
/// interval when it is non-empty, and exactly at `lo` when the two ends
/// denote the same real (the degenerate single-point range).
pub open spec fn drawn_from(r: u32, lo: u32, hi: u32) -> bool {
    if real_lt(lo, hi) {
        real_le(lo, r) && real_lt(r, hi)
    } else {
        r == lo
    }
}

/// A uniform random source, supplied by the caller.
///
/// The engine relies on each method's contract: `pick` must return an index
/// below its bound, and `draw` and `fraction` must return values inside the
/// stated ranges. Implementations live outside the verified library, so
/// these obligations are theirs to keep.
pub trait RandomSource {
    /// Draws a uniform integer from `[0, bound)`.
    fn pick(&mut self, bound: usize) -> (r: usize)
        requires
            bound > 0,
        ensures
            r < bound,
    ;

    /// Draws a uniform real from `[lo, hi)`, both ends given as encodings.
    /// Nothing is promised when the range is not sane.
    fn draw(&mut self, lo: u32, hi: u32) -> (r: u32)
        ensures
            sane_range(lo, hi) ==> drawn_from(r, lo, hi),
    ;

    /// Draws a uniform real from the unit interval `[0, 1)`.
    fn fraction(&mut self) -> (r: u32)
        ensures
            drawn_from(r, 0u32, ONE_ENCODING),
    ;
}

} // verus!
