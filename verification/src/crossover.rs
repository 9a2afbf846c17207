//! The multi-point crossover operator.
//!
//! Two parent genomes of equal length are recombined: a set of distinct cut
//! points splits the positions into segments, and the parents alternate in
//! supplying each segment. Every gene of the child comes verbatim from one
//! of the two parents, so the gene-domain invariant is preserved by
//! construction. The random part only chooses the cut points; what the
//! child looks like for any given cuts is fixed by [`crossed`].

use vstd::prelude::*;
use crate::rng::SeededRng;

verus! {

/// How many cut points lie at or before position `i`.
pub open spec fn cuts_before(cuts: Seq<usize>, i: int) -> nat
    decreases cuts.len(),
{
    if cuts.len() == 0 {
        0
    } else {
        cuts_before(cuts.drop_last(), i) + (if cuts.last() <= i {
            1nat
        } else {
            0nat
        })
    }
}

/// The child that cut points `cuts` produce from parents `a` and `b`:
/// position `i` comes from `a` when an even number of cuts lies at or
/// before it, from `b` otherwise, so the supplying parent alternates at
/// every cut.
pub open spec fn crossed(a: Seq<u8>, b: Seq<u8>, cuts: Seq<usize>) -> Seq<u8> {
    Seq::new(a.len(), |i: int| if cuts_before(cuts, i) % 2 == 0 {
        a[i]
    } else {
        b[i]
    })
}

/// Crossover of two identical parents yields an identical child, whatever
/// the cut points.
pub proof fn lemma_crossover_identical_parents(a: Seq<u8>, b: Seq<u8>, cuts: Seq<usize>)
    requires
        a == b,
    ensures
        crossed(a, b, cuts) == a,
{
    assert(crossed(a, b, cuts) =~= a);
}

/// Counts the cut points at or before position `i`.
fn count_cuts_at_or_before(cuts: &Vec<usize>, i: usize) -> (r: usize)
    ensures
        r == cuts_before(cuts@, i as int),
{
    let mut count: usize = 0;
    let mut j: usize = 0;
    while j < cuts.len()
        invariant
            j <= cuts@.len(),
            count == cuts_before(cuts@.take(j as int), i as int),
            count <= j,
        decreases cuts@.len() - j,
    {
        proof {
            assert(cuts@.take(j as int + 1).drop_last() =~= cuts@.take(j as int));
        }
        if cuts[j] <= i {
            count = count + 1;
        }
        j = j + 1;
    }
    proof {
        assert(cuts@.take(cuts@.len() as int) =~= cuts@);
    }
    count
}

/// Recombines two parent genomes along the given cut points. The child has
/// the parents' length, each position follows [`crossed`], and every gene
/// comes verbatim from one of the two parents.
pub fn apply_crossover(a: &Vec<u8>, b: &Vec<u8>, cuts: &Vec<usize>) -> (r: Vec<u8>)
    requires
        a@.len() == b@.len(),
    ensures
        r@ == crossed(a@, b@, cuts@),
        r@.len() == a@.len(),
        forall|i: int| 0 <= i < r@.len() ==> #[trigger] r@[i] == a@[i] || r@[i] == b@[i],
{
    let mut out: Vec<u8> = Vec::new();
    let mut i: usize = 0;
    while i < a.len()
        invariant
            a@.len() == b@.len(),
            i <= a@.len(),
            out@ =~= crossed(a@, b@, cuts@).take(i as int),
        decreases a@.len() - i,
    {
        let parity = count_cuts_at_or_before(cuts, i);
        if parity % 2 == 0 {
            out.push(a[i]);
        } else {
            out.push(b[i]);
        }
        proof {
            assert(out@ =~= crossed(a@, b@, cuts@).take(i as int + 1));
        }
        i = i + 1;
    }
    proof {
        assert(crossed(a@, b@, cuts@).take(a@.len() as int) =~= crossed(a@, b@, cuts@));
    }
    out
}

/// Chooses `k` distinct cut points from `[1, len - 1]`, clamping `k` to the
/// `len - 1` available boundaries; never fails on that boundary case.
///
/// The points are drawn by partially shuffling the list of all boundaries,
/// so the result is distinct by construction.
pub fn draw_cuts(rng: &mut SeededRng, k: usize, len: usize) -> (r: Vec<usize>)
    requires
        len >= 1,
    ensures
        r@.len() == (if k < len - 1 {
            k as int
        } else {
            len - 1
        }),
        forall|i: int| 0 <= i < r@.len() ==> 1 <= #[trigger] r@[i] < len,
        forall|i: int, j: int| 0 <= i < j < r@.len() ==> r@[i] != r@[j],
{
    let mut candidates: Vec<usize> = Vec::new();
    let mut p: usize = 1;
    while p < len
        invariant
            1 <= p <= len,
            candidates@.len() == p - 1,
            forall|i: int| 0 <= i < candidates@.len() ==> #[trigger] candidates@[i] == i + 1,
        decreases len - p,
    {
        candidates.push(p);
        p = p + 1;
    }
    let total = candidates.len();
    let m = if k < total {
        k
    } else {
        total
    };
    proof {
        assert(forall|i: int, j: int|
            0 <= i < j < candidates@.len() ==> candidates@[i] != candidates@[j]);
    }
    let mut t: usize = 0;
    while t < m
        invariant
            t <= m <= total,
            total == candidates@.len(),
            forall|i: int| 0 <= i < candidates@.len() ==> 1 <= #[trigger] candidates@[i] < len,
            forall|i: int, j: int|
                0 <= i < j < candidates@.len() ==> candidates@[i] != candidates@[j],
        decreases m - t,
    {
        let j = t + rng.index(total - t);
        let ct = candidates[t];
        let cj = candidates[j];
        candidates[t] = cj;
        candidates[j] = ct;
        t = t + 1;
    }
    let mut out: Vec<usize> = Vec::new();
    let mut i: usize = 0;
    while i < m
        invariant
            i <= m <= total,
            total == candidates@.len(),
            forall|q: int| 0 <= q < candidates@.len() ==> 1 <= #[trigger] candidates@[q] < len,
            forall|q: int, w: int|
                0 <= q < w < candidates@.len() ==> candidates@[q] != candidates@[w],
            out@ =~= candidates@.take(i as int),
        decreases m - i,
    {
        out.push(candidates[i]);
        proof {
            assert(out@ =~= candidates@.take(i as int + 1));
        }
        i = i + 1;
    }
    out
}

} // verus!
