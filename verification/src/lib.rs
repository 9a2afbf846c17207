//! A generic evolutionary-optimization engine.
//!
//! Candidate solutions are encoded as fixed-length genomes of bounded
//! integers. A population of such genomes is evolved toward maximizing a
//! user-supplied fitness function through selection, crossover, mutation and
//! elitist reinsertion, one generation per `step` call.

use vstd::prelude::*;

pub mod crossover;
pub mod engine;
pub mod fitness;
pub mod genome;
pub mod mutation;
pub mod phenotype;
pub mod reinsert;
pub mod rng;
pub mod select;
pub mod turtle;
pub mod util;

verus! {

/// Errors surfaced by the engine.
///
/// `InvalidConfiguration` is detected at construction and never retried.
/// `ContractViolation` marks a caller or configuration bug discovered while
/// running (selecting from a population that is too small, averaging an empty
/// score list); it is terminal.
#[derive(Debug, Clone, Copy, PartialEq, Eq, Structural)]
pub enum GaError {
    InvalidConfiguration,
    ContractViolation,
}

} // verus!
