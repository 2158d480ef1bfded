//! Index arithmetic on a ring: the position before and after a given one.

use vstd::prelude::*;
use vstd::arithmetic::div_mod::{lemma_fundamental_div_mod_converse, lemma_mod_bound};
use crate::field::wrap;

verus! {

/// The position before `i` on a ring of `n` positions; before `0` comes `n - 1`.
pub fn wrap_prev(i: usize, n: usize) -> (j: usize)
    requires
        i < n,
    ensures
        j < n,
        j == wrap(i - 1, n as int),
{
    proof {
        lemma_wrap_around(i as int, n as int);
    }
    if i == 0 {
        n - 1
    } else {
        i - 1
    }
}

/// The position after `i` on a ring of `n` positions; after `n - 1` comes `0`.
pub fn wrap_next(i: usize, n: usize) -> (j: usize)
    requires
        i < n,
    ensures
        j < n,
        j == wrap(i + 1, n as int),
{
    proof {
        lemma_wrap_around(i as int, n as int);
    }
    if i == n - 1 {
        0
    } else {
        i + 1
    }
}

/// Whatever is wrapped lands on the ring.
pub proof fn lemma_wrap_bound(i: int, n: int)
    requires
        0 < n,
    ensures
        0 <= wrap(i, n) < n,
{
    lemma_mod_bound(i, n);
}

/// The positions next to a position of the ring, written without a remainder.
pub proof fn lemma_wrap_around(i: int, n: int)
    requires
        0 <= i < n,
    ensures
        wrap(i, n) == i,
        wrap(i - 1, n) == if i == 0 { n - 1 } else { i - 1 },
        wrap(i + 1, n) == if i == n - 1 { 0 } else { i + 1 },
{
    lemma_fundamental_div_mod_converse(i, n, 0, i);
    if i == 0 {
        lemma_fundamental_div_mod_converse(-1, n, -1, n - 1);
    } else {
        lemma_fundamental_div_mod_converse(i - 1, n, 0, i - 1);
    }
    if i == n - 1 {
        lemma_fundamental_div_mod_converse(n, n, 1, 0);
    } else {
        lemma_fundamental_div_mod_converse(i + 1, n, 0, i + 1);
    }
}

} // verus!
