use vstd::prelude::*;

verus! {

/// The product of the integers from 1 to `n`; 1 where `n` is below 2.
pub open spec fn factorial_of(n: int) -> int
    decreases n,
{
    if n <= 1 {
        1
    } else {
        n * factorial_of(n - 1)
    }
}

/// The largest argument whose factorial fits in an `i64`.
pub const MAX_FACTORIAL_ARG: i32 = 20;

/// A factorial is at least 1 and never shrinks as its argument grows.
pub proof fn lemma_factorial_monotonic(a: int, b: int)
    requires
        a <= b,
    ensures
        1 <= factorial_of(a) <= factorial_of(b),
    decreases b,
{
    if b <= 1 {
    } else if a == b {
        lemma_factorial_monotonic(a - 1, b - 1);
        assert(1 <= b * factorial_of(b - 1)) by (nonlinear_arith)
            requires
                b >= 2,
                factorial_of(b - 1) >= 1,
        ;
    } else {
        lemma_factorial_monotonic(a, b - 1);
        assert(factorial_of(b - 1) <= b * factorial_of(b - 1)) by (nonlinear_arith)
            requires
                b >= 2,
                factorial_of(b - 1) >= 1,
        ;
    }
}

/// The factorial of 20, the largest that an `i64` holds.
pub proof fn lemma_factorial_of_twenty()
    ensures
        factorial_of(20) == 2432902008176640000,
{
    reveal_with_fuel(factorial_of, 21);
}

/// The factorial of `n`.
pub fn factorial(n: i32) -> (result: i64)
    requires
        n <= MAX_FACTORIAL_ARG,
    ensures
        result == factorial_of(n as int),
{
    let mut result: i64 = 1;
    if n <= 1 {
        return 1;
    }
    let mut i: i32 = 2;
    while i <= n
        invariant
            2 <= i <= n + 1,
            n <= 20,
            result == factorial_of(i - 1),
        decreases n + 1 - i,
    {
        proof {
            lemma_factorial_monotonic(i as int, 20);
            lemma_factorial_of_twenty();
            assert(result * i == i * result) by (nonlinear_arith);
        }
        result = result * (i as i64);
        i = i + 1;
    }
    result
}

} // verus!
