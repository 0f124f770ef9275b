//! Circular (modulo 2^32) sequence-number arithmetic.
//!
//! TCP sequence numbers live on a 32-bit ring.  Every question of the form
//! "has this sequence number been seen or acknowledged" is answered by the
//! strict circular betweenness test below, which treats the forward distance
//! from `start` as the measure: `x` lies strictly inside the circular
//! interval `(start, end)` exactly when the distance travelled forward from
//! `start` to reach `x` is nonzero and smaller than the distance from
//! `start` to `end`.

use vstd::arithmetic::div_mod::{lemma_mod_multiples_vanish, lemma_small_mod};
use vstd::prelude::*;
use vstd::wrapping::u32_specs;

verus! {

/// `a` advanced by `n` on the 32-bit ring.
pub open spec fn seq_add(a: u32, n: nat) -> u32 {
    ((a + n) % 0x1_0000_0000) as u32
}

/// Advancing by a `u32` amount agrees with the machine's wrapping addition.
pub proof fn lemma_seq_add_u32(a: u32, b: u32)
    ensures
        seq_add(a, b as nat) == u32_specs::wrapping_add(a, b),
{
    if a + b <= u32::MAX {
        lemma_small_mod((a + b) as nat, 0x1_0000_0000);
    } else {
        let s = a + b - 0x1_0000_0000;
        lemma_mod_multiples_vanish(1, s, 0x1_0000_0000);
        lemma_small_mod(s as nat, 0x1_0000_0000);
    }
}

/// `x` lies strictly inside the circular interval `(start, end)`:
/// the forward distance from `start` to `x` is nonzero and smaller than the
/// forward distance from `start` to `end`.  In particular `x == start` is
/// never inside, and `end == start` denotes the empty interval.
pub open spec fn seq_between(start: u32, x: u32, end: u32) -> bool {
    let dx = u32_specs::wrapping_sub(x, start);
    let de = u32_specs::wrapping_sub(end, start);
    0 < dx && dx < de
}

/// Strict circular betweenness, computed without widening past 32 bits,
/// as RFC 1982 serial-number comparison does.
pub fn is_between_wrapped(start: u32, x: u32, end: u32) -> (r: bool)
    ensures
        r == seq_between(start, x, end),
{
    if start == x {
        false
    } else if start < x {
        // No wraparound between start and x; the interval fails to contain x
        // exactly when end falls on the short arc [start, x].
        !(end >= start && end <= x)
    } else {
        // x sits below start, so reaching it from start crosses zero; end
        // must do the same and still lie beyond x.
        end < start && end > x
    }
}

/// The inclusion test respects modular rotation: shifting all three sequence
/// numbers by the same constant does not change the answer.  The boundary
/// case `x == start` is never inside any interval.
pub proof fn lemma_between_rotation(start: u32, x: u32, end: u32, k: u32)
    ensures
        seq_between(
            u32_specs::wrapping_add(start, k),
            u32_specs::wrapping_add(x, k),
            u32_specs::wrapping_add(end, k),
        ) == seq_between(start, x, end),
        !seq_between(start, start, end),
{
}

} // verus!
