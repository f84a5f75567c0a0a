//! A self-adaptive differential evolution optimizer.
//!
//! The engine keeps a population of candidate solutions and improves them
//! step by step with mutation, crossover and selection, one cost evaluation
//! per step, so that the caller can interleave evaluation with any stopping
//! rule. Every real number is carried as the 32-bit pattern of its
//! single-precision representation; the ordering on those patterns is
//! defined and verified in [`order`], and the arithmetic of the mutation
//! formula, together with the uniform random source, is supplied by the
//! caller.

pub mod individual;
pub mod order;
pub mod population;
pub mod settings;
pub mod source;
