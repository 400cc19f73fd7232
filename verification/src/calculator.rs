//! Pure integer arithmetic.
//!
//! Every operation returns exactly the mathematical result. Operands whose
//! result does not fit in `i32` are ruled out by precondition, so none of
//! these functions can overflow or panic.

use vstd::prelude::*;

verus! {

/// Adds two numbers.
pub fn add(a: i32, b: i32) -> (r: i32)
    requires
        i32::MIN <= a + b <= i32::MAX,
    ensures
        r == a + b,
{
    a + b
}

/// Subtracts b from a.
pub fn subtract(a: i32, b: i32) -> (r: i32)
    requires
        i32::MIN <= a - b <= i32::MAX,
    ensures
        r == a - b,
{
    a - b
}

/// Multiplies two numbers.
pub fn multiply(a: i32, b: i32) -> (r: i32)
    requires
        i32::MIN <= a * b <= i32::MAX,
    ensures
        r == a * b,
{
    a * b
}

/// Addition is commutative: the sum is the same in either operand order,
/// so `add(a, b)` and `add(b, a)` agree wherever either is defined.
pub proof fn lemma_add_commutative(a: i32, b: i32)
    ensures
        a + b == b + a,
{
}

/// Swapping the operands of a subtraction negates the difference:
/// `subtract(a, b)` is the negation of `subtract(b, a)`.
pub proof fn lemma_subtract_antisymmetric(a: i32, b: i32)
    ensures
        a - b == -(b - a),
{
}

} // verus!
