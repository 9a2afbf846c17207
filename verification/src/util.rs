//! Shared arithmetic: score sums, the arithmetic mean, and ceilings of
//! rational fractions of a count (used for selection and elitism ratios).

use vstd::prelude::*;
use crate::GaError;

verus! {

/// The sum of a sequence of scores.
pub open spec fn sum_of(s: Seq<u64>) -> int
    decreases s.len(),
{
    if s.len() == 0 {
        0
    } else {
        sum_of(s.drop_last()) + s.last()
    }
}

/// The arithmetic mean of a non-empty list of scores, rounded toward zero.
///
/// An empty list is a contract violation, never a silent default.
pub fn mean_fitness(values: &Vec<u64>) -> (r: Result<u64, GaError>)
    ensures
        r is Err <==> values@.len() == 0,
        values@.len() == 0 ==> r == Err::<u64, GaError>(GaError::ContractViolation),
        values@.len() > 0 ==> (r matches Ok(m) && m == sum_of(values@) / (values@.len() as int)),
{
    if values.len() == 0 {
        return Err(GaError::ContractViolation);
    }
    let mut total: u128 = 0;
    let mut i: usize = 0;
    while i < values.len()
        invariant
            i <= values@.len(),
            total == sum_of(values@.take(i as int)),
            total <= (i as int) * 0xffff_ffff_ffff_ffff,
        decreases values@.len() - i,
    {
        proof {
            assert(values@.take(i as int + 1).drop_last() =~= values@.take(i as int));
        }
        total = total + (values[i] as u128);
        i = i + 1;
    }
    proof {
        assert(values@.take(values@.len() as int) =~= values@);
    }
    let n = values.len();
    let mean = total / (n as u128);
    proof {
        assert(total as int / (n as int) <= 0xffff_ffff_ffff_ffff) by (nonlinear_arith)
            requires
                n >= 1,
                total >= 0,
                total <= (n as int) * 0xffff_ffff_ffff_ffff,
        ;
    }
    Ok(mean as u64)
}

/// Returns the position of the highest score; ties are broken by earliest
/// position.
pub fn best_index(fits: &Vec<u64>) -> (r: usize)
    requires
        fits@.len() > 0,
    ensures
        r < fits@.len(),
        forall|j: int| 0 <= j < fits@.len() ==> fits@[r as int] >= #[trigger] fits@[j],
        forall|j: int| 0 <= j < r ==> #[trigger] fits@[j] < fits@[r as int],
{
    let mut best: usize = 0;
    let mut j: usize = 1;
    while j < fits.len()
        invariant
            best < j <= fits@.len(),
            forall|q: int| 0 <= q < j ==> fits@[best as int] >= #[trigger] fits@[q],
            forall|q: int| 0 <= q < best ==> #[trigger] fits@[q] < fits@[best as int],
        decreases fits@.len() - j,
    {
        if fits[j] > fits[best] {
            best = j;
        }
        j = j + 1;
    }
    best
}

/// `ceil_frac(n, num, den)` is `n * num / den`, rounded up: the number of
/// slots a ratio `num / den` claims out of `n`.
pub open spec fn ceil_frac(n: int, num: int, den: int) -> int {
    (n * num + den - 1) / den
}

/// For a ratio of at most one, the claimed share never exceeds the whole.
pub proof fn lemma_ceil_frac_le(n: int, num: int, den: int)
    requires
        n >= 0,
        den > 0,
        0 <= num <= den,
    ensures
        0 <= ceil_frac(n, num, den) <= n,
{
    assert(0 <= (n * num + den - 1) / den <= n) by (nonlinear_arith)
        requires
            n >= 0,
            den > 0,
            0 <= num <= den,
    ;
}

/// Computes `ceil_frac` on machine integers.
pub fn ceil_frac_exec(n: usize, num: u64, den: u64) -> (r: usize)
    requires
        den > 0,
        num <= den,
    ensures
        r == ceil_frac(n as int, num as int, den as int),
        r <= n,
{
    proof {
        lemma_ceil_frac_le(n as int, num as int, den as int);
        assert((n as int) * (num as int) <= 0xffff_ffff_ffff_ffff * 0xffff_ffff_ffff_ffff)
            by (nonlinear_arith)
            requires
                0 <= n as int <= 0xffff_ffff_ffff_ffff,
                0 <= num as int <= 0xffff_ffff_ffff_ffff,
        ;
    }
    let wide: u128 = (n as u128) * (num as u128) + (den as u128) - 1;
    let r_wide: u128 = wide / (den as u128);
    r_wide as usize
}

} // verus!
