//! The Fibonacci sequence on machine words.

use vstd::arithmetic::div_mod::lemma_add_mod_noop;
use vstd::prelude::*;

verus! {

/// The Fibonacci numbers: 0, 1, 1, 2, 3, 5, ...
pub open spec fn fib(n: nat) -> nat
    decreases n,
{
    if n == 0 {
        0
    } else if n == 1 {
        1
    } else {
        fib((n - 2) as nat) + fib((n - 1) as nat)
    }
}

/// The `n`-th Fibonacci number and its successor, each reduced modulo 2^32.
pub fn fibonacci(n: u32) -> (r: (u32, u32))
    ensures
        r.0 == fib(n as nat) % 0x1_0000_0000,
        r.1 == fib(n as nat + 1) % 0x1_0000_0000,
{
    let mut a: u32 = 0;
    let mut b: u32 = 1;
    let mut i: u32 = 0;
    while i < n
        invariant
            i <= n,
            a == fib(i as nat) % 0x1_0000_0000,
            b == fib(i as nat + 1) % 0x1_0000_0000,
        decreases n - i,
    {
        let c: u32 = a.wrapping_add(b);
        proof {
            lemma_add_mod_noop(fib(i as nat) as int, fib(i as nat + 1) as int, 0x1_0000_0000);
            assert(fib(i as nat + 2) == fib(i as nat) + fib(i as nat + 1));
        }
        a = b;
        b = c;
        i = i + 1;
    }
    (a, b)
}

} // verus!
