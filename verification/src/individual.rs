//! One candidate solution: a position, its cached cost, and the two
//! self-adapted control parameters that travel with it.

use vstd::prelude::*;

verus! {

/// A single individual of the population. Pure data: a position vector of
/// encoded reals, the cost of that position if it has been evaluated, and
/// the individual's own crossover probability `cr` and differential weight
/// `f`, both encoded reals as well.
pub struct Individual {
    /// The candidate position, one encoded real per dimension.
    pub pos: Vec<u32>,
    /// The evaluated cost of `pos`; absent until the next evaluation.
    pub cost: Option<u32>,
    /// Crossover probability, self-adapted per individual.
    pub cr: u32,
    /// Differential weight, self-adapted per individual.
    pub f: u32,
}

} // verus!
