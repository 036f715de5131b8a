use vstd::prelude::*;
use crate::error::{InvariantError, RegistryError};

verus! {

/// Number of capability slots in the registry.
pub const CAPABILITY_COUNT: usize = 32;

/// The fixed-point unit of a capability weight: a weight of `WEIGHT_SCALE`
/// stands for the whole reward distribution (1.0).
pub const WEIGHT_SCALE: u64 = 1_000_000;

/// Sum of a weight vector.
pub open spec fn weight_sum(s: Seq<u64>) -> int
    decreases s.len(),
{
    if s.len() == 0 {
        0
    } else {
        weight_sum(s.drop_last()) + s.last()
    }
}

/// The total a new weight is normalized against: the weights already held
/// plus the incoming one.
pub open spec fn total_weight(s: Seq<u64>, new_weight: u64) -> int {
    weight_sum(s) + new_weight
}

/// One weight divided by `total`, in fixed point, rounded down.
pub open spec fn scaled(w: u64, total: int) -> u64 {
    ((w as int) * (WEIGHT_SCALE as int) / total) as u64
}

/// Every weight of `s` divided by the total of `s` and `new_weight`.
pub open spec fn normalized(s: Seq<u64>, new_weight: u64) -> Seq<u64> {
    Seq::new(s.len(), |i: int| scaled(s[i], total_weight(s, new_weight)))
}

pub proof fn lemma_weight_sum_bounds(s: Seq<u64>)
    ensures
        0 <= weight_sum(s) <= s.len() * (u64::MAX as int),
        forall|i: int| 0 <= i < s.len() ==> s[i] <= weight_sum(s),
    decreases s.len(),
{
    if s.len() > 0 {
        lemma_weight_sum_bounds(s.drop_last());
        assert forall|i: int| 0 <= i < s.len() implies s[i] <= weight_sum(s) by {
            if i < s.len() - 1 {
                assert(s[i] == s.drop_last()[i]);
            }
        }
    }
}

pub proof fn lemma_weight_sum_update(s: Seq<u64>, k: int, v: u64)
    requires
        0 <= k < s.len(),
    ensures
        weight_sum(s.update(k, v)) == weight_sum(s) - s[k] + v,
    decreases s.len(),
{
    let t = s.update(k, v);
    if k == s.len() - 1 {
        assert(t.drop_last() =~= s.drop_last());
    } else {
        lemma_weight_sum_update(s.drop_last(), k, v);
        assert(t.drop_last() =~= s.drop_last().update(k, v));
    }
}

/// Scaling by a total at least as large as the weight stays within one whole.
pub proof fn lemma_scaled_bound(w: u64, total: int)
    requires
        0 <= w <= total,
        total > 0,
    ensures
        0 <= (w as int) * (WEIGHT_SCALE as int) / total <= WEIGHT_SCALE,
{
    let s = WEIGHT_SCALE as int;
    assert((w as int) * s <= total * s) by (nonlinear_arith)
        requires
            0 <= w <= total,
            s > 0,
    ;
    assert((total * s) / total == s) by (nonlinear_arith)
        requires
            total > 0,
    ;
    assert(0 <= (w as int) * s / total <= (total * s) / total) by (nonlinear_arith)
        requires
            0 <= (w as int) * s <= total * s,
            total > 0,
    ;
}

/// Adds up a weight vector.
pub fn sum_weights(weights: &Vec<u64>) -> (r: u128)
    requires
        weights.len() <= CAPABILITY_COUNT,
    ensures
        r as int == weight_sum(weights@),
{
    let mut sum: u128 = 0;
    let mut i: usize = 0;
    while i < weights.len()
        invariant
            i <= weights.len() <= CAPABILITY_COUNT,
            sum as int == weight_sum(weights@.subrange(0, i as int)),
        decreases weights.len() - i,
    {
        proof {
            lemma_weight_sum_bounds(weights@.subrange(0, i as int));
            assert(weights@.subrange(0, i as int + 1).drop_last() =~= weights@.subrange(0, i as int));
        }
        sum = sum + weights[i] as u128;
        i = i + 1;
    }
    assert(weights@.subrange(0, weights.len() as int) =~= weights@);
    sum
}

/// Divides every held weight by the sum of the held weights and
/// `new_weight`. The new weight itself is not part of the result: the
/// caller stores it at its slot. A zero total is refused.
pub fn normalize_weights(weights: &Vec<u64>, new_weight: u64) -> (r: Result<Vec<u64>, RegistryError>)
    requires
        weights.len() <= CAPABILITY_COUNT,
    ensures
        total_weight(weights@, new_weight) == 0 <==> r is Err,
        r matches Err(e) ==> e == RegistryError::Invariant(InvariantError::ZeroTotalWeight),
        r matches Ok(v) ==> v@ == normalized(weights@, new_weight),
{
    proof {
        lemma_weight_sum_bounds(weights@);
    }
    let total: u128 = sum_weights(weights) + new_weight as u128;
    if total == 0 {
        return Err(RegistryError::Invariant(InvariantError::ZeroTotalWeight));
    }
    let mut out: Vec<u64> = Vec::new();
    let mut i: usize = 0;
    while i < weights.len()
        invariant
            i <= weights.len() <= CAPABILITY_COUNT,
            total as int == total_weight(weights@, new_weight),
            total > 0,
            forall|j: int| 0 <= j < weights.len() ==> weights@[j] <= weight_sum(weights@),
            out@.len() == i,
            forall|j: int| 0 <= j < i ==> out@[j] == scaled(weights@[j], total as int),
        decreases weights.len() - i,
    {
        let w: u64 = weights[i];
        proof {
            lemma_scaled_bound(w, total as int);
        }
        let q: u128 = (w as u128) * (WEIGHT_SCALE as u128) / total;
        out.push(q as u64);
        i = i + 1;
    }
    assert(out@ =~= normalized(weights@, new_weight));
    Ok(out)
}

/// Weights each divided by `total` and rounded down add up, times `total`,
/// to at most the sum of the weights themselves, in fixed point.
pub proof fn lemma_scaled_sum_bound(t: Seq<u64>, total: int)
    requires
        total > 0,
        forall|i: int| 0 <= i < t.len() ==> t[i] <= total,
    ensures
        weight_sum(Seq::new(t.len(), |i: int| scaled(t[i], total))) * total <= weight_sum(t)
            * (WEIGHT_SCALE as int),
    decreases t.len(),
{
    let f = Seq::new(t.len(), |i: int| scaled(t[i], total));
    if t.len() > 0 {
        let u = t.drop_last();
        lemma_scaled_sum_bound(u, total);
        assert(f.drop_last() =~= Seq::new(u.len(), |i: int| scaled(u[i], total)));
        let x = t.last();
        lemma_scaled_bound(x, total);
        let k = WEIGHT_SCALE as int;
        let q = (x as int) * k / total;
        assert(q * total <= (x as int) * k) by (nonlinear_arith)
            requires
                total > 0,
                q == (x as int) * k / total,
        ;
        let a = weight_sum(f.drop_last());
        let b = weight_sum(u);
        assert((a + q) * total == a * total + q * total) by (nonlinear_arith);
        assert((b + x) * k == b * k + (x as int) * k) by (nonlinear_arith);
    }
}

} // verus!
