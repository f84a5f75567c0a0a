//! The configuration bundle a population is built from.

use vstd::prelude::*;

use crate::source::RandomSource;

verus! {

/// The encoding of `0.1`, the default adaptation probability and the
/// default lower end of the differential-weight range.
pub const TENTH_ENCODING: u32 = 0x3dcc_cccd;

/// The encoding of `1.0`, the default upper end of both control ranges.
pub const UNIT_ENCODING: u32 = 0x3f80_0000;

/// The default number of individuals in the population.
pub const DEFAULT_POP_SIZE: usize = 100;

/// Whether two settings agree on everything but the random source, whose
/// state the engine consumes as it draws.
pub open spec fn same_config<F, G, R>(a: Settings<F, G, R>, b: Settings<F, G, R>) -> bool where
    F: Fn(Vec<u32>) -> u32,
    G: Fn(u32, u32, u32, u32) -> u32,
    R: RandomSource,
{
    &&& a.min_max_pos == b.min_max_pos
    &&& a.cr_min_max == b.cr_min_max
    &&& a.cr_change_probability == b.cr_change_probability
    &&& a.f_min_max == b.f_min_max
    &&& a.f_change_probability == b.f_change_probability
    &&& a.pop_size == b.pop_size
    &&& a.cost_function == b.cost_function
    &&& a.blend == b.blend
}

/// Everything the population needs: the initial search box, the control
/// parameter ranges and adaptation probabilities, the population size, the
/// random source, the cost function, and the mutation arithmetic.
///
/// `F` is the cost function: it maps a position (a vector of encoded reals,
/// one per dimension) to an encoded cost, lower is better. `G` is the
/// mutation arithmetic of the scalar encoding: `blend(b3, w, b1, b2)` must
/// return the encoding of `b3 + w * (b1 - b2)` over the caller's reals; it
/// is supplied from outside because the verified library does not compute
/// on the encodings themselves, only with them. `R` is the uniform random
/// source.
pub struct Settings<F, G, R> where
    F: Fn(Vec<u32>) -> u32,
    G: Fn(u32, u32, u32, u32) -> u32,
    R: RandomSource,
{
    /// One `(min, max)` pair of encoded reals per dimension. Initial
    /// positions are drawn uniformly inside these pairs; the search itself
    /// may leave the box later, by design.
    pub min_max_pos: Vec<(u32, u32)>,

    /// Range the crossover probability `cr` is drawn from.
    pub cr_min_max: (u32, u32),

    /// Probability that a reproduction step redraws an individual's `cr`.
    pub cr_change_probability: u32,

    /// Range the differential weight `f` is drawn from.
    pub f_min_max: (u32, u32),

    /// Probability that a reproduction step redraws an individual's `f`.
    pub f_change_probability: u32,

    /// Number of individuals. At least three, so that a mutation step can
    /// draw three pairwise distinct population indices.
    pub pop_size: usize,

    /// The uniform random source every draw goes through.
    pub rng: R,

    /// The cost function to minimize.
    pub cost_function: F,

    /// The mutation arithmetic on encoded reals.
    pub blend: G,
}

impl<F, G, R> Settings<F, G, R> where
    F: Fn(Vec<u32>) -> u32,
    G: Fn(u32, u32, u32, u32) -> u32,
    R: RandomSource,
{
    /// Creates settings with the standard self-adaptation parameters: `cr`
    /// drawn from `[0, 1)` and redrawn with probability `0.1`, `f` drawn
    /// from `[0.1, 1.0)` and redrawn with probability `0.1`, and one
    /// hundred individuals.
    pub fn default(min_max_pos: Vec<(u32, u32)>, cost_function: F, blend: G, rng: R) -> (s:
        Settings<F, G, R>)
        ensures
            s.min_max_pos == min_max_pos,
            s.cr_min_max == (0u32, UNIT_ENCODING),
            s.cr_change_probability == TENTH_ENCODING,
            s.f_min_max == (TENTH_ENCODING, UNIT_ENCODING),
            s.f_change_probability == TENTH_ENCODING,
            s.pop_size == DEFAULT_POP_SIZE,
            s.cost_function == cost_function,
            s.blend == blend,
            s.rng == rng,
    {
        Settings {
            min_max_pos,
            cr_min_max: (0u32, UNIT_ENCODING),
            cr_change_probability: TENTH_ENCODING,
            f_min_max: (TENTH_ENCODING, UNIT_ENCODING),
            f_change_probability: TENTH_ENCODING,
            pop_size: DEFAULT_POP_SIZE,
            rng,
            cost_function,
            blend,
        }
    }
}

} // verus!
