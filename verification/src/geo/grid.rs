use vstd::prelude::*;
use vstd::arithmetic::div_mod::{lemma_fundamental_div_mod, lemma_mod_bound, lemma_fundamental_div_mod_converse};

verus! {

/// The number of whole steps of `step` that fit below `coord`: the greatest `q` with
/// `q * step <= coord`.
pub open spec fn floor_index(coord: int, step: int) -> int {
    coord / step
}

/// The floor index is the one whole number `q` with `q * step <= coord < (q + 1) * step`.
pub proof fn lemma_floor_index_bounds(coord: int, step: int)
    requires
        step > 0,
    ensures
        floor_index(coord, step) * step <= coord < (floor_index(coord, step) + 1) * step,
{
    lemma_fundamental_div_mod(coord, step);
    lemma_mod_bound(coord, step);
    let q = coord / step;
    assert(step * q == q * step) by (nonlinear_arith);
    assert((q + 1) * step == q * step + step) by (nonlinear_arith);
}

/// Any whole number `q` with `q * step <= coord < (q + 1) * step` is the floor index.
pub proof fn lemma_floor_index_unique(coord: int, step: int, q: int)
    requires
        step > 0,
        q * step <= coord < (q + 1) * step,
    ensures
        floor_index(coord, step) == q,
{
    let r = coord - q * step;
    assert((q + 1) * step == q * step + step) by (nonlinear_arith);
    lemma_fundamental_div_mod_converse(coord, step, q, r);
}

/// The floor index of `coord` for a positive `step`.
pub fn floor_div(coord: i64, step: i64) -> (result: i64)
    requires
        step > 0,
    ensures
        result == floor_index(coord as int, step as int),
{
    if coord >= 0 {
        coord / step
    } else {
        let below: i64 = (-(coord + 1)) / step;
        proof {
            let b = -(coord as int + 1);
            lemma_floor_index_bounds(b, step as int);
            let q = -(below as int) - 1;
            assert(q * step == -(below * step) - step) by (nonlinear_arith)
                requires
                    q == -(below as int) - 1,
            ;
            assert((q + 1) * step == -(below * step)) by (nonlinear_arith)
                requires
                    q == -(below as int) - 1,
            ;
            assert((below + 1) * step == below * step + step) by (nonlinear_arith);
            lemma_floor_index_unique(coord as int, step as int, q);
        }
        -below - 1
    }
}

} // verus!
