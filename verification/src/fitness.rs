//! The fitness-evaluator plug-in contract.
//!
//! Domain problems supply an evaluator; the engine only relies on what this
//! trait promises: scoring is a pure function of the genome, so two calls on
//! an unchanged genome return the identical score.

use vstd::prelude::*;
use crate::GaError;
use crate::util::sum_of;

verus! {

/// Scores genomes; the plug-in point for problem-specific code.
///
/// `fitness_spec` is the mathematical score function; `fitness_of` must
/// compute exactly it, which makes evaluation deterministic and
/// side-effect-free by contract. The declared bounds are hints for
/// stop-condition configuration and display; the engine does not enforce
/// them.
pub trait FitnessFunction: Sized {
    /// The genomes the evaluator is defined on. The engine only ever scores
    /// genomes of the configured length and gene domain, so an evaluator may
    /// restrict itself to those.
    spec fn valid_genome(&self, g: Seq<u8>) -> bool;

    /// The score of a genome, as a mathematical function.
    spec fn fitness_spec(&self, g: Seq<u8>) -> u64;

    /// The declared upper fitness bound.
    spec fn highest_possible_spec(&self) -> u64;

    /// The declared lower fitness bound.
    spec fn lowest_possible_spec(&self) -> u64;

    /// Scores a genome. Pure: the result is exactly `fitness_spec`.
    fn fitness_of(&self, genome: &Vec<u8>) -> (r: u64)
        requires
            self.valid_genome(genome@),
        ensures
            r == self.fitness_spec(genome@),
    ;

    /// The declared upper fitness bound.
    fn highest_possible_fitness(&self) -> (r: u64)
        ensures
            r == self.highest_possible_spec(),
    ;

    /// The declared lower fitness bound.
    fn lowest_possible_fitness(&self) -> (r: u64)
        ensures
            r == self.lowest_possible_spec(),
    ;

    /// The arithmetic mean of a non-empty list of scores; an empty list is a
    /// contract violation.
    fn average(&self, values: &Vec<u64>) -> (r: Result<u64, GaError>)
        ensures
            r is Err <==> values@.len() == 0,
            values@.len() == 0 ==> r == Err::<u64, GaError>(GaError::ContractViolation),
            values@.len() > 0 ==> (r matches Ok(m) && m == sum_of(values@) / (
            values@.len() as int)),
    ;
}

} // verus!
