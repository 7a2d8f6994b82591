//! Wrapping 32-bit addition, the shim's pure arithmetic operation.

use vstd::arithmetic::div_mod::lemma_add_mod_noop;
use vstd::arithmetic::div_mod::lemma_mod_sub_multiples_vanish;
use vstd::arithmetic::div_mod::lemma_small_mod;
use vstd::prelude::*;

verus! {

/// The sum of two unsigned 32-bit values, reduced modulo 2^32.
pub open spec fn add_spec(a: u32, b: u32) -> u32 {
    ((a + b) % 0x1_0000_0000) as u32
}

/// Wrapping addition: the sum modulo 2^32, with no overflow check.
pub fn add(a: u32, b: u32) -> (r: u32)
    ensures
        r == add_spec(a, b),
{
    proof {
        if a + b <= u32::MAX {
            lemma_small_mod((a + b) as nat, 0x1_0000_0000nat);
        } else {
            lemma_small_mod((a + b - 0x1_0000_0000) as nat, 0x1_0000_0000nat);
            assert((a + b) % 0x1_0000_0000 == (a + b - 0x1_0000_0000) % 0x1_0000_0000) by {
                lemma_mod_sub_multiples_vanish(a + b, 0x1_0000_0000);
            }
        }
    }
    a.wrapping_add(b)
}

/// The order of the two summands does not matter.
pub proof fn lemma_add_commutative(a: u32, b: u32)
    ensures
        add_spec(a, b) == add_spec(b, a),
{
}

/// Grouping does not matter: summing three values wraps to the same
/// result whichever pair is added first.
pub proof fn lemma_add_associative(a: u32, b: u32, c: u32)
    ensures
        add_spec(add_spec(a, b), c) == add_spec(a, add_spec(b, c)),
{
    let m = 0x1_0000_0000int;
    lemma_small_mod(a as nat, m as nat);
    lemma_small_mod(b as nat, m as nat);
    lemma_small_mod(c as nat, m as nat);
    lemma_add_mod_noop(a + b, c as int, m);
    lemma_add_mod_noop(a as int, b + c, m);
}

/// Zero is the identity of the wrapping sum.
pub proof fn lemma_add_identity(x: u32)
    ensures
        add_spec(0, x) == x,
        add_spec(x, 0) == x,
{
    lemma_small_mod(x as nat, 0x1_0000_0000nat);
}

} // verus!
