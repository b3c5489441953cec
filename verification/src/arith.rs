//! Facts about products that the layout proofs share.

use vstd::prelude::*;

verus! {

/// Repeating a length more often never makes the total shorter.
pub proof fn lemma_multiples_grow(unit: int, fewer: int, more: int)
    by (nonlinear_arith)
    requires
        0 <= unit,
        0 <= fewer <= more,
    ensures
        0 <= unit * fewer <= unit * more,
        unit * (fewer + 1) == unit * fewer + unit,
        unit * fewer == fewer * unit,
{
}

/// Repeating a longer length gives a longer total.
pub proof fn lemma_longer_unit(shorter: int, longer: int, times: int)
    by (nonlinear_arith)
    requires
        0 <= shorter <= longer,
        0 <= times,
    ensures
        0 <= shorter * times <= longer * times,
{
}

/// Repeating two lengths together is repeating each and adding the totals.
pub proof fn lemma_split_unit(first: int, second: int, times: int)
    by (nonlinear_arith)
    ensures
        (first + second) * times == first * times + second * times,
{
}

} // verus!
