//! The selection operator.
//!
//! Tournament-style selection over an evaluated population: each breeding
//! candidate is the best of a small randomly drawn pool, so a higher-scored
//! individual is never less likely to be chosen than a lower-scored one.
//! The random part only draws pool indices; which candidate a given pool
//! yields is fixed by [`pick_among`]'s contract. Selecting from a
//! population of fewer than two individuals is a contract violation,
//! reported, never silently an empty result.

use vstd::prelude::*;
use crate::GaError;
use crate::rng::SeededRng;
use crate::util::ceil_frac;
use crate::util::ceil_frac_exec;

verus! {

/// How many breeding candidates a selection ratio `num / den` chooses from
/// a population of `n`: the ratio's share of `n`, rounded up, but at least
/// two, so a breeding pair always exists.
pub open spec fn selection_count(n: int, num: int, den: int) -> int {
    if ceil_frac(n, num, den) >= 2 {
        ceil_frac(n, num, den)
    } else {
        2
    }
}

/// Returns the index, among the candidate positions, of the best-scored
/// individual; ties go to the earliest population position.
pub fn pick_among(fits: &Vec<u64>, candidates: &Vec<usize>) -> (r: usize)
    requires
        candidates@.len() > 0,
        forall|i: int| 0 <= i < candidates@.len() ==> #[trigger] candidates@[i] < fits@.len(),
    ensures
        candidates@.contains(r),
        forall|i: int|
            0 <= i < candidates@.len() ==> fits@[r as int] >= fits@[#[trigger] candidates@[i] as int],
        forall|i: int|
            0 <= i < candidates@.len() && fits@[#[trigger] candidates@[i] as int] == fits@[r as int]
                ==> r <= candidates@[i],
{
    let mut best: usize = candidates[0];
    let mut i: usize = 1;
    proof {
        assert(candidates@.contains(candidates@[0]));
    }
    while i < candidates.len()
        invariant
            1 <= i <= candidates@.len(),
            forall|j: int| 0 <= j < candidates@.len() ==> #[trigger] candidates@[j] < fits@.len(),
            candidates@.contains(best),
            best < fits@.len(),
            forall|j: int| 0 <= j < i ==> fits@[best as int] >= fits@[#[trigger] candidates@[j] as int],
            forall|j: int|
                0 <= j < i && fits@[#[trigger] candidates@[j] as int] == fits@[best as int] ==> best
                    <= candidates@[j],
        decreases candidates@.len() - i,
    {
        let c = candidates[i];
        proof {
            assert(candidates@.contains(candidates@[i as int]));
        }
        if fits[c] > fits[best] || (fits[c] == fits[best] && c < best) {
            best = c;
        }
        i = i + 1;
    }
    best
}

/// Draws `count` indices uniformly from `[0, n)`, with repetition.
fn draw_pool(rng: &mut SeededRng, count: usize, n: usize) -> (r: Vec<usize>)
    requires
        n > 0,
        count > 0,
    ensures
        r@.len() == count,
        forall|i: int| 0 <= i < count ==> #[trigger] r@[i] < n,
{
    let mut out: Vec<usize> = Vec::new();
    let mut i: usize = 0;
    while i < count
        invariant
            n > 0,
            i <= count,
            out@.len() == i,
            forall|j: int| 0 <= j < i ==> #[trigger] out@[j] < n,
        decreases count - i,
    {
        let d = rng.index(n);
        out.push(d);
        i = i + 1;
    }
    out
}

/// Chooses the breeding candidates from an evaluated population, given its
/// score per position.
///
/// The ratio `num / den` fixes how many candidates are chosen (its share of
/// the population, rounded up, at least two); each is the winner of a
/// freshly drawn tournament of `pool_size` positions. A population of
/// fewer than two individuals cannot breed: exactly then the result is a
/// contract violation.
pub fn select_parents(
    rng: &mut SeededRng,
    fits: &Vec<u64>,
    num: u64,
    den: u64,
    pool_size: usize,
) -> (r: Result<Vec<usize>, GaError>)
    requires
        den > 0,
        num <= den,
        pool_size > 0,
    ensures
        r is Err <==> fits@.len() < 2,
        r is Err ==> r == Err::<Vec<usize>, GaError>(GaError::ContractViolation),
        r matches Ok(sel) ==> sel@.len() == selection_count(
            fits@.len() as int,
            num as int,
            den as int,
        ) && forall|i: int| 0 <= i < sel@.len() ==> #[trigger] sel@[i] < fits@.len(),
{
    if fits.len() < 2 {
        return Err(GaError::ContractViolation);
    }
    let share = ceil_frac_exec(fits.len(), num, den);
    let count = if share >= 2 {
        share
    } else {
        2
    };
    let mut out: Vec<usize> = Vec::new();
    let mut i: usize = 0;
    while i < count
        invariant
            den > 0,
            num <= den,
            pool_size > 0,
            fits@.len() >= 2,
            i <= count,
            out@.len() == i,
            forall|j: int| 0 <= j < i ==> #[trigger] out@[j] < fits@.len(),
        decreases count - i,
    {
        let pool = draw_pool(rng, pool_size, fits.len());
        let winner = pick_among(fits, &pool);
        proof {
            assert(pool@.contains(winner));
            let q = choose|q: int| 0 <= q < pool@.len() && pool@[q] == winner;
            assert(pool@[q] < fits@.len());
        }
        out.push(winner);
        i = i + 1;
    }
    Ok(out)
}

} // verus!
