//! Stepping forwards and backwards through a cycle of entries, without
//! leaving machine integers whatever the starting index.

use vstd::prelude::*;

verus! {

/// The entry after `i` in a cycle of `n` entries: `(i + 1) % n`.
pub fn next_in_cycle(i: usize, n: usize) -> (r: usize)
    requires
        n > 0,
    ensures
        r == (i as int + 1) % (n as int),
{
    let m = i % n;
    proof {
        vstd::arithmetic::div_mod::lemma_mod_pos_bound(i as int, n as int);
        vstd::arithmetic::div_mod::lemma_add_mod_noop(i as int, 1, n as int);
    }
    if n == 1 {
        proof {
            vstd::arithmetic::div_mod::lemma_mod_self_0(1);
            assert((i as int + 1) % 1 == 0) by {
                vstd::arithmetic::div_mod::lemma_mod_pos_bound(i as int + 1, 1);
            }
        }
        0
    } else {
        proof {
            vstd::arithmetic::div_mod::lemma_small_mod(1, n as nat);
        }
        (m + 1) % n
    }
}

/// The entry before `i` in a cycle of `n` entries: `(i + n - 1) % n`.
pub fn previous_in_cycle(i: usize, n: usize) -> (r: usize)
    requires
        n > 0,
    ensures
        r == (i as int + n as int - 1) % (n as int),
{
    let m = i % n;
    proof {
        vstd::arithmetic::div_mod::lemma_mod_pos_bound(i as int, n as int);
        vstd::arithmetic::div_mod::lemma_add_mod_noop(i as int, n as int - 1, n as int);
        vstd::arithmetic::div_mod::lemma_small_mod((n - 1) as nat, n as nat);
    }
    if m == 0 {
        proof {
            vstd::arithmetic::div_mod::lemma_small_mod((n - 1) as nat, n as nat);
        }
        n - 1
    } else {
        proof {
            vstd::arithmetic::div_mod::lemma_mod_add_multiples_vanish(m as int - 1, n as int);
            vstd::arithmetic::div_mod::lemma_small_mod((m - 1) as nat, n as nat);
        }
        m - 1
    }
}

} // verus!
