use vstd::prelude::*;
use crate::math::{factorial_of, MAX_FACTORIAL_ARG};

verus! {

/// The factorial of `n`.
pub fn factorial(n: i32) -> (result: i64)
    requires
        n <= MAX_FACTORIAL_ARG,
    ensures
        result == factorial_of(n as int),
{
    crate::math::factorial(n)
}

} // verus!
