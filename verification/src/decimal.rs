//! Decimal notation for integers: what it is, and how to write it.

use vstd::prelude::*;

verus! {

/// The character for the decimal digit `d`, where `0 <= d <= 9`.
pub open spec fn digit_char(d: int) -> char
    recommends
        0 <= d <= 9,
{
    seq!['0', '1', '2', '3', '4', '5', '6', '7', '8', '9'][d]
}

/// The decimal notation of a natural number: its digits from the most
/// significant to the units, with no leading zero (zero itself is "0").
pub open spec fn decimal_nat(n: nat) -> Seq<char>
    decreases n,
{
    if n < 10 {
        seq![digit_char(n as int)]
    } else {
        decimal_nat(n / 10).push(digit_char((n % 10) as int))
    }
}

/// The decimal notation of an integer: that of its magnitude, behind a
/// minus sign where the integer is negative.
pub open spec fn decimal(v: int) -> Seq<char> {
    if v < 0 {
        seq!['-'] + decimal_nat((-v) as nat)
    } else {
        decimal_nat(v as nat)
    }
}

/// The number that a digit character stands for.
pub open spec fn digit_value(c: char) -> int {
    c as int - '0' as int
}

/// The number that a row of digits denotes, read positionally in base ten.
pub open spec fn digits_value(digits: Seq<char>) -> int
    decreases digits.len(),
{
    if digits.len() == 0 {
        0
    } else {
        digits_value(digits.drop_last()) * 10 + digit_value(digits.last())
    }
}

/// The notation of a natural number is never empty, holds digits only, and
/// begins with a zero only where the number is zero.
pub proof fn lemma_decimal_nat_is_canonical(n: nat)
    ensures
        decimal_nat(n).len() >= 1,
        forall|i: int|
            0 <= i < decimal_nat(n).len() ==> 0 <= digit_value(#[trigger] decimal_nat(n)[i]) <= 9,
        decimal_nat(n)[0] == '0' <==> n == 0,
    decreases n,
{
    if n >= 10 {
        lemma_decimal_nat_is_canonical(n / 10);
    }
}

/// Reading the notation of a natural number gives the number back, so
/// nothing of it is lost in writing.
pub proof fn lemma_decimal_nat_reads_back(n: nat)
    ensures
        digits_value(decimal_nat(n)) == n,
    decreases n,
{
    let digits = decimal_nat(n);
    assert(digit_value(digits.last()) == n % 10);
    if n < 10 {
        assert(digits.drop_last() =~= Seq::<char>::empty());
        assert(digits_value(digits.drop_last()) == 0);
    } else {
        lemma_decimal_nat_reads_back(n / 10);
        assert(digits.drop_last() =~= decimal_nat(n / 10));
    }
}

/// Different integers are written differently.
pub proof fn lemma_decimal_tells_integers_apart(v: int, w: int)
    requires
        decimal(v) == decimal(w),
    ensures
        v == w,
{
    let (m, n) = (vstd::math::abs(v) as nat, vstd::math::abs(w) as nat);
    lemma_decimal_nat_is_canonical(m);
    lemma_decimal_nat_is_canonical(n);
    lemma_decimal_nat_reads_back(m);
    lemma_decimal_nat_reads_back(n);
    if v < 0 && w < 0 {
        assert(decimal_nat(m) =~= decimal(v).subrange(1, decimal(v).len() as int));
        assert(decimal_nat(n) =~= decimal(w).subrange(1, decimal(w).len() as int));
    } else if v < 0 {
        assert(decimal(v)[0] == '-');
        assert(digit_value(decimal(w)[0]) >= 0);
    } else if w < 0 {
        assert(decimal(w)[0] == '-');
        assert(digit_value(decimal(v)[0]) >= 0);
    }
}

/// The one-character text of the digit `d`.
fn digit_text(d: u32) -> (text: &'static str)
    requires
        d < 10,
    ensures
        text@ == seq![digit_char(d as int)],
{
    proof {
        reveal_strlit("0");
        reveal_strlit("1");
        reveal_strlit("2");
        reveal_strlit("3");
        reveal_strlit("4");
        reveal_strlit("5");
        reveal_strlit("6");
        reveal_strlit("7");
        reveal_strlit("8");
        reveal_strlit("9");
    }
    let text = if d == 0 {
        "0"
    } else if d == 1 {
        "1"
    } else if d == 2 {
        "2"
    } else if d == 3 {
        "3"
    } else if d == 4 {
        "4"
    } else if d == 5 {
        "5"
    } else if d == 6 {
        "6"
    } else if d == 7 {
        "7"
    } else if d == 8 {
        "8"
    } else {
        "9"
    };
    assert(text@ =~= seq![digit_char(d as int)]);
    text
}

/// Writes `n` in decimal notation.
pub fn write_u32(n: u32) -> (text: String)
    ensures
        text@ == decimal_nat(n as nat),
    decreases n,
{
    if n < 10 {
        String::from_str(digit_text(n))
    } else {
        let mut text = write_u32(n / 10);
        text.append(digit_text(n % 10));
        assert(text@ =~= decimal_nat(n as nat));
        text
    }
}

/// Writes `v` in decimal notation, with a minus sign if it is negative.
pub fn write_i32(v: i32) -> (text: String)
    ensures
        text@ == decimal(v as int),
{
    if v < 0 {
        let magnitude: u32 = (-(v as i64)) as u32;
        let mut text = String::from_str("-");
        let digits = write_u32(magnitude);
        text.append(digits.as_str());
        proof {
            reveal_strlit("-");
        }
        assert(text@ =~= decimal(v as int));
        text
    } else {
        write_u32(v as u32)
    }
}

} // verus!
