use vstd::prelude::*;

verus! {

/// Mathematical model of two's-complement 32-bit addition: the exact sum of
/// `a` and `b`, wrapped into the signed 32-bit range on overflow.
pub open spec fn plus_spec(a: i32, b: i32) -> i32 {
    if a + b > i32::MAX {
        (a + b - 0x1_0000_0000) as i32
    } else if a + b < i32::MIN {
        (a + b + 0x1_0000_0000) as i32
    } else {
        (a + b) as i32
    }
}

/// Adds two signed 32-bit integers with wraparound on overflow.
///
/// Total over the full input range: it never fails and never panics.
/// In particular, `plus(i32::MAX, 1)` wraps to `i32::MIN`.
pub fn plus(a: i32, b: i32) -> (r: i32)
    ensures
        r == plus_spec(a, b),
{
    a.wrapping_add(b)
}

/// Law: wraparound addition is commutative.
pub proof fn lemma_plus_commutes(a: i32, b: i32)
    ensures
        plus_spec(a, b) == plus_spec(b, a),
{
}

/// Law: zero is the identity of wraparound addition.
pub proof fn lemma_plus_identity(a: i32)
    ensures
        plus_spec(a, 0) == a,
{
}

} // verus!
