//! The elitist reinsertion operator.
//!
//! Offspring and parents are merged into the next generation's population,
//! which has exactly the configured size again. The top-scored parents
//! (the elites) are carried over unchanged, fitness cache included, each
//! displacing one offspring slot from the back; a strict flag decides
//! whether a displaced offspring must score strictly below its replacement
//! or may tie. Offspring fill the remaining slots, repeating cyclically
//! when there are too few and truncating when there are too many.

use vstd::prelude::*;
use crate::genome::Individual;

verus! {

/// Position `a` outranks position `b`: a higher score, or an equal score at
/// an earlier position. A strict total order on distinct positions, so the
/// ranking of a population is unambiguous.
pub open spec fn outranks(fits: Seq<u64>, a: int, b: int) -> bool {
    fits[a] > fits[b] || (fits[a] == fits[b] && a < b)
}

/// The offspring that fills slot `j` when offspring are repeated
/// cyclically.
pub open spec fn cyclic(off: Seq<Individual>, j: int) -> Individual {
    off[j % off.len() as int]
}

/// Both hold the same genome and the same fitness cache.
pub open spec fn same_individual(a: Individual, b: Individual) -> bool {
    a.genome@ == b.genome@ && a.cached == b.cached
}

/// An elite parent with score `pf` takes a slot from an offspring with
/// score `of`: under the strict flag only when it scores strictly higher,
/// otherwise also on a tie.
pub open spec fn elite_wins(pf: u64, of: u64, strict: bool) -> bool {
    if strict {
        pf > of
    } else {
        pf >= of
    }
}

/// Ranks the whole population and returns the positions of its `e` best
/// individuals, best first; ties are broken by earliest position.
///
/// Every returned position outranks every position left out, and earlier
/// returned positions outrank later ones.
pub fn top_indices(fits: &Vec<u64>, e: usize) -> (r: Vec<usize>)
    requires
        e <= fits@.len(),
    ensures
        r@.len() == e,
        forall|i: int| 0 <= i < e ==> #[trigger] r@[i] < fits@.len(),
        forall|i: int, j: int| 0 <= i < j < e ==> outranks(fits@, r@[i] as int, r@[j] as int),
        forall|i: int, m: int|
            #![trigger r@[i], r@.contains(m as usize)]
            0 <= i < e && 0 <= m < fits@.len() && !r@.contains(m as usize) ==> outranks(
                fits@,
                r@[i] as int,
                m,
            ),
{
    let n = fits.len();
    let mut idx: Vec<usize> = Vec::new();
    let mut p: usize = 0;
    while p < n
        invariant
            p <= n,
            idx@.len() == p,
            forall|t: int| 0 <= t < p ==> #[trigger] idx@[t] == t,
        decreases n - p,
    {
        idx.push(p);
        p = p + 1;
    }
    proof {
        assert forall|m: int| 0 <= m < n implies #[trigger] idx@.contains(m as usize) by {
            assert(idx@[m] == m as usize);
        }
    }
    let mut round: usize = 0;
    while round < e
        invariant
            round <= e <= n,
            n == fits@.len(),
            idx@.len() == n,
            forall|t: int| 0 <= t < n ==> #[trigger] idx@[t] < n,
            forall|t1: int, t2: int| 0 <= t1 < t2 < n ==> idx@[t1] != idx@[t2],
            forall|m: int| 0 <= m < n ==> #[trigger] idx@.contains(m as usize),
            forall|i: int, j: int|
                0 <= i < j < round ==> outranks(fits@, idx@[i] as int, idx@[j] as int),
            forall|i: int, t: int|
                0 <= i < round && round <= t < n ==> outranks(
                    fits@,
                    #[trigger] idx@[i] as int,
                    #[trigger] idx@[t] as int,
                ),
        decreases e - round,
    {
        // the outranking maximum of the tail segment
        let mut best: usize = round;
        let mut t: usize = round + 1;
        while t < n
            invariant
                round <= best < t <= n,
                n == fits@.len(),
                idx@.len() == n,
                forall|q: int| 0 <= q < n ==> #[trigger] idx@[q] < n,
                forall|t1: int, t2: int| 0 <= t1 < t2 < n ==> idx@[t1] != idx@[t2],
                forall|q: int|
                    round <= q < t && q != best ==> outranks(
                        fits@,
                        idx@[best as int] as int,
                        #[trigger] idx@[q] as int,
                    ),
            decreases n - t,
        {
            let a = idx[t];
            let b = idx[best];
            if fits[a] > fits[b] || (fits[a] == fits[b] && a < b) {
                best = t;
            }
            t = t + 1;
        }
        let a = idx[round];
        let b = idx[best];
        let ghost old_idx = idx@;
        idx[round] = b;
        idx[best] = a;
        proof {
            assert(idx@ == old_idx.update(round as int, b).update(best as int, a));
            assert forall|m: int| 0 <= m < n implies #[trigger] idx@.contains(m as usize) by {
                assert(old_idx.contains(m as usize));
                let q = choose|q: int| 0 <= q < n && old_idx[q] == m as usize;
                if q == round {
                    assert(idx@[best as int] == m as usize);
                } else if q == best {
                    assert(idx@[round as int] == m as usize);
                } else {
                    assert(idx@[q] == m as usize);
                }
            }
        }
        round = round + 1;
    }
    let mut out: Vec<usize> = Vec::new();
    let mut i: usize = 0;
    while i < e
        invariant
            i <= e <= n,
            idx@.len() == n,
            out@ =~= idx@.take(i as int),
        decreases e - i,
    {
        out.push(idx[i]);
        proof {
            assert(out@ =~= idx@.take(i as int + 1));
        }
        i = i + 1;
    }
    proof {
        assert forall|i2: int, m: int|
            0 <= i2 < e && 0 <= m < fits@.len() && !out@.contains(m as usize) implies outranks(
            fits@,
            out@[i2] as int,
            m,
        ) by {
            assert(idx@.contains(m as usize));
            let t = choose|t: int| 0 <= t < n && idx@[t] == m as usize;
            if t < e {
                assert(out@[t] == m as usize);
                assert(out@.contains(m as usize));
            } else {
                assert(outranks(fits@, idx@[i2] as int, idx@[t] as int));
            }
        }
    }
    out
}

/// Merges offspring and elite parents into the next generation.
///
/// The result has exactly the parents' population size `n`. Slot `j` holds
/// the cyclically repeated offspring `j`, except that the `i`-th elite
/// parent claims slot `n - 1 - i` — and takes it exactly when it outscores
/// the offspring standing there, as the strict flag demands.
pub fn reinsert(
    parents: &Vec<Individual>,
    parent_fits: &Vec<u64>,
    offspring: &Vec<Individual>,
    offspring_fits: &Vec<u64>,
    elites: &Vec<usize>,
    strict: bool,
) -> (r: Vec<Individual>)
    requires
        parent_fits@.len() == parents@.len(),
        offspring_fits@.len() == offspring@.len(),
        offspring@.len() > 0,
        elites@.len() <= parents@.len(),
        forall|i: int| 0 <= i < elites@.len() ==> #[trigger] elites@[i] < parents@.len(),
    ensures
        r@.len() == parents@.len(),
        forall|j: int|
            0 <= j < parents@.len() - elites@.len() ==> same_individual(
                #[trigger] r@[j],
                cyclic(offspring@, j),
            ),
        forall|i: int|
            0 <= i < elites@.len() ==> {
                let s = parents@.len() - 1 - i;
                if elite_wins(
                    parent_fits@[#[trigger] elites@[i] as int],
                    offspring_fits@[s % offspring@.len() as int],
                    strict,
                ) {
                    same_individual(r@[s], parents@[elites@[i] as int])
                } else {
                    same_individual(r@[s], cyclic(offspring@, s))
                }
            },
{
    let n = parents.len();
    let off_len = offspring.len();
    let mut next: Vec<Individual> = Vec::new();
    let mut j: usize = 0;
    while j < n
        invariant
            off_len == offspring@.len(),
            off_len > 0,
            j <= n,
            next@.len() == j,
            forall|q: int| 0 <= q < j ==> same_individual(#[trigger] next@[q], cyclic(offspring@, q)),
        decreases n - j,
    {
        let child = offspring[j % off_len].duplicate();
        next.push(child);
        j = j + 1;
    }
    let e = elites.len();
    let mut i: usize = 0;
    while i < e
        invariant
            n == parents@.len() == parent_fits@.len(),
            off_len == offspring@.len() == offspring_fits@.len(),
            off_len > 0,
            e == elites@.len() <= n,
            forall|q: int| 0 <= q < e ==> #[trigger] elites@[q] < n,
            i <= e,
            next@.len() == n,
            forall|q: int|
                0 <= q < n - i ==> same_individual(#[trigger] next@[q], cyclic(offspring@, q)),
            forall|q: int|
                0 <= q < i ==> {
                    let s = n - 1 - q;
                    if elite_wins(
                        parent_fits@[#[trigger] elites@[q] as int],
                        offspring_fits@[s % off_len as int],
                        strict,
                    ) {
                        same_individual(next@[s], parents@[elites@[q] as int])
                    } else {
                        same_individual(next@[s], cyclic(offspring@, s))
                    }
                },
        decreases e - i,
    {
        let s = n - 1 - i;
        let o = s % off_len;
        let pi = elites[i];
        let wins = if strict {
            parent_fits[pi] > offspring_fits[o]
        } else {
            parent_fits[pi] >= offspring_fits[o]
        };
        if wins {
            let carried = parents[pi].duplicate();
            next[s] = carried;
        }
        i = i + 1;
    }
    next
}

} // verus!
