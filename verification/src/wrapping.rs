//! Two's-complement wraparound of 32-bit signed sums, as a model over the
//! mathematical integers.

use vstd::prelude::*;

verus! {

/// Number of distinct values of a 32-bit word.
pub open spec fn modulus() -> int {
    0x1_0000_0000
}

/// The signed reading of a 32-bit word `word` in `0 .. 2^32`: words with the
/// top bit set stand for the negative numbers.
pub open spec fn signed_reading(word: int) -> int {
    if word >= 0x8000_0000 {
        word - modulus()
    } else {
        word
    }
}

/// The 32-bit signed value that the exact sum `a + b` wraps to: the sum
/// reduced modulo 2^32, read as a signed word.
pub open spec fn wrapped_sum(a: int, b: int) -> int {
    signed_reading((a + b) % modulus())
}

/// The wrapped sum is a 32-bit signed value, and it differs from the exact
/// sum by a whole number of turns of 2^32.
pub proof fn lemma_wrapped_sum_is_congruent(a: int, b: int)
    ensures
        i32::MIN <= wrapped_sum(a, b) <= i32::MAX,
        (wrapped_sum(a, b) - (a + b)) % modulus() == 0,
{
}

/// No other 32-bit signed value differs from the exact sum by a whole number
/// of turns of 2^32.
pub proof fn lemma_wrapped_sum_is_unique(a: int, b: int, other: int)
    requires
        i32::MIN <= other <= i32::MAX,
        (other - (a + b)) % modulus() == 0,
    ensures
        other == wrapped_sum(a, b),
{
}

/// A sum that fits in 32 bits is not changed by wrapping.
pub proof fn lemma_wrapped_sum_exact_when_it_fits(a: int, b: int)
    requires
        i32::MIN <= a + b <= i32::MAX,
    ensures
        wrapped_sum(a, b) == a + b,
{
}

/// One step past either end of the 32-bit range lands on the other end.
pub proof fn lemma_wrapped_sum_turns_over(a: int, b: int)
    requires
        i32::MIN <= a <= i32::MAX,
        i32::MIN <= b <= i32::MAX,
    ensures
        a + b > i32::MAX ==> wrapped_sum(a, b) == a + b - modulus(),
        a + b < i32::MIN ==> wrapped_sum(a, b) == a + b + modulus(),
{
}

/// The order of the operands does not matter.
pub proof fn lemma_wrapped_sum_commutes(a: int, b: int)
    ensures
        wrapped_sum(a, b) == wrapped_sum(b, a),
{
}

} // verus!
