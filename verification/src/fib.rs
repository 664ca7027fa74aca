//! The Fibonacci sequence over 32-bit arithmetic: values are returned
//! exactly while they fit, and overflow is reported rather than wrapped.

use vstd::prelude::*;

verus! {

/// The Fibonacci number of rank `n`.
pub open spec fn fib(n: nat) -> nat
    decreases n,
{
    if n == 0 {
        0
    } else if n == 1 {
        1
    } else {
        fib((n - 1) as nat) + fib((n - 2) as nat)
    }
}

/// The Fibonacci sequence never decreases.
pub proof fn lemma_fib_monotonic(i: nat, j: nat)
    requires
        i <= j,
    ensures
        fib(i) <= fib(j),
    decreases j,
{
    if i < j && j >= 2 {
        lemma_fib_monotonic(i, (j - 1) as nat);
    } else if i < j {
        assert(fib(0) <= fib(1));
    }
}

/// The Fibonacci number of rank `n` as a 32-bit value, or `None` when it
/// exceeds `u32::MAX`.
pub fn fibo(n: u32) -> (r: Option<u32>)
    ensures
        fib(n as nat) <= u32::MAX ==> r == Some(fib(n as nat) as u32),
        fib(n as nat) > u32::MAX ==> r is None,
{
    if n <= 1 {
        return Some(n);
    }
    let mut prev: u32 = 0;
    let mut current: u32 = 1;
    let mut i: u64 = 2;
    while i <= n as u64
        invariant
            2 <= i,
            i as int <= n as int + 1,
            prev == fib((i - 2) as nat),
            current == fib((i - 1) as nat),
        decreases n as int + 1 - i as int,
    {
        if current > u32::MAX - prev {
            proof {
                lemma_fib_monotonic(i as nat, n as nat);
            }
            return None;
        }
        let next: u32 = prev + current;
        prev = current;
        current = next;
        i = i + 1;
    }
    Some(current)
}

} // verus!
