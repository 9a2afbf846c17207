//! Genomes, individuals, and the initial population.
//!
//! A genome is a fixed-length sequence of genes, each an integer of the
//! domain `[lo, hi)` fixed for the whole run. An individual carries a genome
//! together with a lazily computed, cached fitness score.

use vstd::prelude::*;
use crate::rng::SeededRng;

verus! {

/// Holds when every gene of `s` lies in the domain `[lo, hi)`.
pub open spec fn genome_in_domain(s: Seq<u8>, lo: u8, hi: u8) -> bool {
    forall|i: int| 0 <= i < s.len() ==> lo <= #[trigger] s[i] < hi
}

/// A candidate solution: a genome plus a cached fitness score.
///
/// `cached` is `None` until the individual is evaluated; whoever sets it is
/// responsible for keeping it equal to the fitness of the current genome,
/// and the engine re-evaluates whenever the genome changes.
pub struct Individual {
    pub genome: Vec<u8>,
    pub cached: Option<u64>,
}

impl Individual {
    /// Wraps a fresh, not yet evaluated genome.
    pub fn fresh(genome: Vec<u8>) -> (r: Individual)
        ensures
            r.genome == genome,
            r.cached is None,
    {
        Individual { genome, cached: None }
    }

    /// Copies the individual, genome and fitness cache alike.
    pub fn duplicate(&self) -> (r: Individual)
        ensures
            r.genome@ == self.genome@,
            r.cached == self.cached,
    {
        Individual { genome: clone_genome(&self.genome), cached: self.cached }
    }
}

/// Copies a genome gene by gene.
pub fn clone_genome(g: &Vec<u8>) -> (r: Vec<u8>)
    ensures
        r@ == g@,
{
    let mut out: Vec<u8> = Vec::new();
    let mut i: usize = 0;
    while i < g.len()
        invariant
            i <= g@.len(),
            out@ == g@.take(i as int),
        decreases g@.len() - i,
    {
        out.push(g[i]);
        proof {
            assert(out@ =~= g@.take(i as int + 1));
        }
        i = i + 1;
    }
    proof {
        assert(g@.take(g@.len() as int) =~= g@);
    }
    out
}

/// Samples a genome of `len` genes, each drawn independently and uniformly
/// from the domain `[lo, hi)`.
pub fn random_genome(rng: &mut SeededRng, len: usize, lo: u8, hi: u8) -> (r: Vec<u8>)
    requires
        lo < hi,
    ensures
        r@.len() == len,
        genome_in_domain(r@, lo, hi),
{
    let mut out: Vec<u8> = Vec::new();
    let mut i: usize = 0;
    while i < len
        invariant
            lo < hi,
            i <= len,
            out@.len() == i,
            genome_in_domain(out@, lo, hi),
        decreases len - i,
    {
        let g = rng.gene(lo, hi);
        out.push(g);
        i = i + 1;
    }
    out
}

/// Builds the initial population: `n` unevaluated individuals whose genomes
/// are sampled uniformly from the gene domain.
pub fn init_population(rng: &mut SeededRng, n: usize, len: usize, lo: u8, hi: u8) -> (r: Vec<
    Individual,
>)
    requires
        lo < hi,
    ensures
        r@.len() == n,
        forall|i: int|
            0 <= i < n ==> (#[trigger] r@[i]).genome@.len() == len && genome_in_domain(
                r@[i].genome@,
                lo,
                hi,
            ) && r@[i].cached is None,
{
    let mut out: Vec<Individual> = Vec::new();
    let mut i: usize = 0;
    while i < n
        invariant
            lo < hi,
            i <= n,
            out@.len() == i,
            forall|j: int|
                0 <= j < i ==> (#[trigger] out@[j]).genome@.len() == len && genome_in_domain(
                    out@[j].genome@,
                    lo,
                    hi,
                ) && out@[j].cached is None,
        decreases n - i,
    {
        let g = random_genome(rng, len, lo, hi);
        out.push(Individual::fresh(g));
        i = i + 1;
    }
    out
}

} // verus!
