//! The mutation operator.
//!
//! Each gene is, independently with probability `num / den`, replaced by a
//! freshly uniformly sampled value of the gene domain, and left unchanged
//! otherwise. The random part of the operator only produces one coin and
//! one fresh gene per position; what the child looks like for any such
//! draws is fixed by [`apply_mutation`]'s contract.

use vstd::prelude::*;
use crate::genome::genome_in_domain;
use crate::rng::SeededRng;

verus! {

/// The genome that mutation draws `draws` and threshold `num` turn `g`
/// into: position `i` becomes the freshly drawn gene exactly when the
/// position's coin fell below `num`.
pub open spec fn mutated(g: Seq<u8>, draws: Seq<(u64, u8)>, num: u64) -> Seq<u8> {
    Seq::new(g.len(), |i: int| if draws[i].0 < num {
        draws[i].1
    } else {
        g[i]
    })
}

/// With probability zero, mutation never changes a genome.
pub proof fn lemma_mutation_zero_probability(g: Seq<u8>, draws: Seq<(u64, u8)>)
    requires
        draws.len() == g.len(),
    ensures
        mutated(g, draws, 0) == g,
{
    assert(mutated(g, draws, 0) =~= g);
}

/// With probability one, every gene is redrawn: each position of the child
/// is its fresh draw, whatever the parent held there.
pub proof fn lemma_mutation_full_probability(g: Seq<u8>, draws: Seq<(u64, u8)>, num: u64, den: u64)
    requires
        draws.len() == g.len(),
        num >= den,
        forall|i: int| 0 <= i < draws.len() ==> (#[trigger] draws[i]).0 < den,
    ensures
        forall|i: int| 0 <= i < g.len() ==> mutated(g, draws, num)[i] == draws[i].1,
{
}

/// Draws one mutation decision per position: a coin from `[0, den)` and a
/// fresh gene from `[lo, hi)`.
fn draw_mutations(rng: &mut SeededRng, len: usize, den: u64, lo: u8, hi: u8) -> (r: Vec<(u64, u8)>)
    requires
        den > 0,
        lo < hi,
    ensures
        r@.len() == len,
        forall|i: int| 0 <= i < len ==> (#[trigger] r@[i]).0 < den,
        forall|i: int| 0 <= i < len ==> lo <= (#[trigger] r@[i]).1 < hi,
{
    let mut out: Vec<(u64, u8)> = Vec::new();
    let mut i: usize = 0;
    while i < len
        invariant
            den > 0,
            lo < hi,
            i <= len,
            out@.len() == i,
            forall|j: int| 0 <= j < i ==> (#[trigger] out@[j]).0 < den,
            forall|j: int| 0 <= j < i ==> lo <= (#[trigger] out@[j]).1 < hi,
        decreases len - i,
    {
        let coin = rng.below(den);
        let fresh = rng.gene(lo, hi);
        out.push((coin, fresh));
        i = i + 1;
    }
    out
}

/// Builds the child genome a given set of mutation draws dictates: position
/// by position, the fresh gene where the coin fell below `num`, the parent's
/// gene otherwise.
pub fn apply_mutation(g: &Vec<u8>, draws: &Vec<(u64, u8)>, num: u64) -> (r: Vec<u8>)
    requires
        draws@.len() == g@.len(),
    ensures
        r@ == mutated(g@, draws@, num),
{
    let mut out: Vec<u8> = Vec::new();
    let mut i: usize = 0;
    while i < g.len()
        invariant
            draws@.len() == g@.len(),
            i <= g@.len(),
            out@ =~= mutated(g@, draws@, num).take(i as int),
        decreases g@.len() - i,
    {
        let d = draws[i];
        if d.0 < num {
            out.push(d.1);
        } else {
            out.push(g[i]);
        }
        proof {
            assert(out@ =~= mutated(g@, draws@, num).take(i as int + 1));
        }
        i = i + 1;
    }
    proof {
        assert(mutated(g@, draws@, num).take(g@.len() as int) =~= mutated(g@, draws@, num));
    }
    out
}

/// Mutates a genome with per-gene probability `num / den`: a fresh copy is
/// returned, the input is left unchanged, its length is kept, every gene
/// stays in the domain, and with probability zero the copy equals the input.
pub fn mutate(rng: &mut SeededRng, g: &Vec<u8>, num: u64, den: u64, lo: u8, hi: u8) -> (r: Vec<u8>)
    requires
        den > 0,
        num <= den,
        lo < hi,
        genome_in_domain(g@, lo, hi),
    ensures
        r@.len() == g@.len(),
        genome_in_domain(r@, lo, hi),
        num == 0 ==> r@ == g@,
{
    let draws = draw_mutations(rng, g.len(), den, lo, hi);
    let child = apply_mutation(g, &draws, num);
    proof {
        if num == 0 {
            lemma_mutation_zero_probability(g@, draws@);
        }
        assert forall|i: int| 0 <= i < child@.len() implies lo <= #[trigger] child@[i] < hi by {
            assert(child@[i] == mutated(g@, draws@, num)[i]);
        }
    }
    child
}

} // verus!
