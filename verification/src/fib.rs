use vstd::prelude::*;

verus! {

/// The Fibonacci numbers: `fib(0) == 0`, `fib(1) == 1`, and each later one
/// is the sum of the two before it.
pub open spec fn fib(n: nat) -> nat
    decreases n,
{
    if n <= 1 {
        n
    } else {
        fib((n - 1) as nat) + fib((n - 2) as nat)
    }
}

/// The Fibonacci recurrence: 0, 1, and then each number the sum of the two
/// before it.
pub proof fn lemma_fib_recurrence(n: nat)
    ensures
        fib(0) == 0,
        fib(1) == 1,
        fib(n + 2) == fib(n + 1) + fib(n),
{
    assert(fib((n + 2) as nat) == fib((n + 1) as nat) + fib(n));
}

/// `fib` never decreases as its argument grows.
pub proof fn lemma_fib_monotonic(i: nat, j: nat)
    requires
        i <= j,
    ensures
        fib(i) <= fib(j),
    decreases j - i,
{
    if i < j {
        lemma_fib_monotonic(i, (j - 1) as nat);
        if j >= 2 {
            assert(fib(j) == fib((j - 1) as nat) + fib((j - 2) as nat));
        }
    }
}

/// The `n`th Fibonacci number, computed by the naive double recursion that
/// serves as the CPU-bound workload of the blocking tasks.
pub fn fibonacci(n: u64) -> (r: u64)
    requires
        fib(n as nat) <= u64::MAX,
    ensures
        r == fib(n as nat),
    decreases n,
{
    if n <= 1 {
        n
    } else {
        proof {
            lemma_fib_monotonic((n - 1) as nat, n as nat);
            lemma_fib_monotonic((n - 2) as nat, n as nat);
        }
        fibonacci(n - 1) + fibonacci(n - 2)
    }
}

/// The `n`th Fibonacci number when it fits in a `u64`, and `None` when it
/// does not; computed by iteration, so it is cheap to ask before running
/// `fibonacci`.
pub fn checked_fibonacci(n: u64) -> (r: Option<u64>)
    ensures
        match r {
            Some(v) => v == fib(n as nat),
            None => fib(n as nat) > u64::MAX,
        },
{
    if n == 0 {
        return Some(0);
    }
    let mut prev: u64 = 0;
    let mut cur: u64 = 1;
    let mut k: u64 = 1;
    while k < n
        invariant
            1 <= k <= n,
            cur == fib(k as nat),
            prev == fib((k - 1) as nat),
        decreases n - k,
    {
        assert(fib((k + 1) as nat) == fib(k as nat) + fib((k - 1) as nat));
        match cur.checked_add(prev) {
            Some(next) => {
                prev = cur;
                cur = next;
                k = k + 1;
            },
            None => {
                proof {
                    lemma_fib_monotonic((k + 1) as nat, n as nat);
                }
                return None;
            },
        }
    }
    Some(cur)
}

} // verus!
