//! Fibonacci numbers over `u32`, reporting overflow as `None`.

use vstd::prelude::*;

verus! {

/// The mathematical Fibonacci sequence.
pub open spec fn fib(n: nat) -> nat
    decreases n,
{
    if n == 0 {
        0
    } else if n == 1 {
        1
    } else {
        fib((n - 1) as nat) + fib((n - 2) as nat)
    }
}

/// The Fibonacci sequence never decreases.
pub proof fn lemma_fib_monotonic(i: nat, j: nat)
    requires
        i <= j,
    ensures
        fib(i) <= fib(j),
    decreases j,
{
    if j <= 1 || i == j {
    } else {
        lemma_fib_monotonic(i, (j - 1) as nat);
        assert(fib(j) == fib((j - 1) as nat) + fib((j - 2) as nat));
    }
}

/// The `n`-th Fibonacci number, or `None` when it does not fit in a `u32`.
pub fn fibo(n: u32) -> (r: Option<u32>)
    ensures
        fib(n as nat) <= u32::MAX ==> r == Some(fib(n as nat) as u32),
        fib(n as nat) > u32::MAX ==> r is None,
{
    if n == 0 {
        return Some(0);
    }
    let mut prev: u32 = 0;
    let mut cur: u32 = 1;
    let mut i: u32 = 1;
    while i < n
        invariant
            1 <= i <= n,
            prev == fib((i - 1) as nat),
            cur == fib(i as nat),
        decreases n - i,
    {
        if cur > u32::MAX - prev {
            proof {
                lemma_fib_monotonic((i + 1) as nat, n as nat);
            }
            return None;
        }
        let next: u32 = cur + prev;
        prev = cur;
        cur = next;
        i = i + 1;
    }
    Some(cur)
}

} // verus!
