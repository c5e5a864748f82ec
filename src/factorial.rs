use vstd::prelude::*;

verus! {

/// `n!` for positive `n`; the empty product 1 for every `n <= 0`.
pub open spec fn factorial(n: int) -> int
    decreases n,
{
    if n <= 0 {
        1
    } else {
        n * factorial(n - 1)
    }
}

proof fn lemma_factorial_monotone(a: int, b: int)
    requires
        0 <= a <= b,
    ensures
        1 <= factorial(a) <= factorial(b),
    decreases b,
{
    if b > a {
        lemma_factorial_monotone(a, b - 1);
        assert(factorial(b - 1) <= b * factorial(b - 1)) by (nonlinear_arith)
            requires
                b >= 1,
                factorial(b - 1) >= 1,
        ;
    } else if a > 0 {
        lemma_factorial_monotone(a - 1, a - 1);
        assert(a * factorial(a - 1) >= 1) by (nonlinear_arith)
            requires
                a >= 1,
                factorial(a - 1) >= 1,
        ;
    }
}

proof fn lemma_factorial_twelve()
    ensures
        factorial(12) == 479001600,
{
    reveal_with_fuel(factorial, 13);
}

/// The product `1 * 2 * ... * n`, which is 1 when `n <= 0`.
/// `13!` no longer fits in an `i32`, so `n` is at most 12.
pub fn fac(n: i32) -> (r: i32)
    requires
        n <= 12,
    ensures
        r == factorial(n as int),
{
    let mut r: i32 = 1;
    let mut i: i32 = 1;
    while i <= n
        invariant
            1 <= i,
            n <= 12,
            i <= n + 1 || n < 1,
            n < 1 ==> i == 1,
            r == factorial(i - 1),
        decreases n + 1 - i,
    {
        proof {
            lemma_factorial_twelve();
            lemma_factorial_monotone(i as int, 12);
            assert(factorial(i as int) == i * factorial(i - 1));
        }
        r = r * i;
        i = i + 1;
    }
    r
}

} // verus!
