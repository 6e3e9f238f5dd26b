//! Decimal notation of natural numbers of any size.

use vstd::prelude::*;

verus! {

/// The character that stands for the digit `d`.
pub open spec fn digit_char(d: nat) -> char {
    (48 + d) as char
}

/// The decimal notation of `n`, without leading zeros.
pub open spec fn decimal(n: nat) -> Seq<char>
    decreases n,
{
    if n < 10 {
        seq![digit_char(n)]
    } else {
        decimal(n / 10).push(digit_char(n % 10))
    }
}

/// Ten to the power `n`.
pub(crate) closed spec fn pow10(n: nat) -> nat
    decreases n,
{
    if n == 0 {
        1
    } else {
        10 * pow10((n - 1) as nat)
    }
}

/// What a list of digits stands for, the least significant digit first.
pub(crate) closed spec fn value(digits: Seq<u8>) -> nat
    decreases digits.len(),
{
    if digits.len() == 0 {
        0
    } else {
        digits[0] as nat + 10 * value(digits.drop_first())
    }
}

/// A list of decimal digits, at least one, with no leading zero in front of another digit.
pub(crate) open spec fn canonical(digits: Seq<u8>) -> bool {
    &&& digits.len() > 0
    &&& forall|i: int| 0 <= i < digits.len() ==> digits[i] < 10
    &&& digits.len() > 1 ==> digits.last() != 0
}

/// The characters of a list of digits, the most significant first.
spec fn text(digits: Seq<u8>) -> Seq<char>
    decreases digits.len(),
{
    if digits.len() == 0 {
        seq![]
    } else {
        text(digits.drop_first()).push(digit_char(digits[0] as nat))
    }
}

proof fn lemma_value_positive(digits: Seq<u8>)
    requires
        digits.len() > 0,
        digits.last() != 0,
    ensures
        value(digits) >= 1,
    decreases digits.len(),
{
    if digits.len() > 1 {
        lemma_value_positive(digits.drop_first());
    }
}

proof fn lemma_text_is_decimal(digits: Seq<u8>)
    requires
        canonical(digits),
    ensures
        text(digits) == decimal(value(digits)),
    decreases digits.len(),
{
    let rest = digits.drop_first();
    if digits.len() == 1 {
        assert(value(rest) == 0);
        assert(text(rest) == Seq::<char>::empty());
        assert(text(digits) =~= seq![digit_char(digits[0] as nat)]);
    } else {
        lemma_value_positive(rest);
        lemma_text_is_decimal(rest);
        let low = digits[0] as nat;
        let high = value(rest);
        assert((low + 10 * high) / 10 == high && (low + 10 * high) % 10 == low) by (nonlinear_arith)
            requires
                low < 10,
        ;
    }
}

proof fn lemma_value_push(digits: Seq<u8>, d: u8)
    ensures
        value(digits.push(d)) == value(digits) + pow10(digits.len()) * d,
    decreases digits.len(),
{
    let longer = digits.push(d);
    if digits.len() == 0 {
        assert(longer.drop_first() =~= Seq::<u8>::empty());
        assert(value(longer.drop_first()) == 0 && value(digits) == 0);
        assert(pow10(0) == 1);
    } else {
        lemma_value_push(digits.drop_first(), d);
        assert(longer.drop_first() =~= digits.drop_first().push(d));
        let p = pow10((digits.len() - 1) as nat);
        assert(10 * (p * d) == (10 * p) * d) by (nonlinear_arith);
    }
}

/// The digits of `n`.
pub(crate) fn digits_of(n: u64) -> (digits: Vec<u8>)
    ensures
        canonical(digits@),
        digits@.len() <= 20,
        value(digits@) == n,
        n > 0 ==> digits@.last() != 0,
        n > 0 ==> pow10((digits@.len() - 1) as nat) <= n,
    decreases n,
{
    assert(pow10(20) == 100_000_000_000_000_000_000) by {
        reveal_with_fuel(pow10, 21);
    }
    assert(pow10(0) == 1);
    if n < 10 {
        let mut digits: Vec<u8> = Vec::new();
        digits.push(n as u8);
        assert(digits@.drop_first() =~= Seq::<u8>::empty());
        assert(value(digits@.drop_first()) == 0);
        digits
    } else {
        let mut digits = digits_of(n / 10);
        let ghost high = digits@;
        digits.insert(0, (n % 10) as u8);
        assert(digits@.drop_first() =~= high);
        digits
    }
}

/// Twice the number that `digits` stands for.
pub(crate) fn doubled(digits: &Vec<u8>) -> (twice: Vec<u8>)
    requires
        canonical(digits@),
        digits@.last() != 0,
        digits@.len() < usize::MAX,
    ensures
        canonical(twice@),
        twice@.last() != 0,
        twice@.len() <= digits@.len() + 1,
        value(twice@) == 2 * value(digits@),
{
    let mut twice: Vec<u8> = Vec::new();
    let mut carry: u8 = 0;
    let mut i: usize = 0;
    assert(digits@.skip(0) =~= digits@);
    assert(value(twice@) == 0 && pow10(0) == 1);
    while i < digits.len()
        invariant
            i <= digits@.len(),
            canonical(digits@),
            digits@.last() != 0,
            carry <= 1,
            twice@.len() == i,
            forall|j: int| 0 <= j < i ==> twice@[j] < 10,
            i == digits@.len() && carry == 0 ==> twice@.last() != 0,
            value(twice@) + pow10(i as nat) * (carry + 2 * value(digits@.skip(i as int))) == 2 * value(digits@),
        decreases digits@.len() - i,
    {
        let ghost before = twice@;
        let ghost rest = value(digits@.skip(i as int + 1));
        let ghost p = pow10(i as nat);
        let ghost c0 = carry;
        let sum: u8 = 2 * digits[i] + carry;
        proof {
            assert(digits@.skip(i as int).drop_first() =~= digits@.skip(i as int + 1));
            lemma_value_push(before, sum % 10);
            let d = digits@[i as int] as nat;
            let low = (sum % 10) as nat;
            let high = (sum / 10) as nat;
            assert(c0 + 2 * (d + 10 * rest) == low + 10 * (high + 2 * rest));
            assert(p * (low + 10 * (high + 2 * rest)) == p * low + (10 * p) * (high + 2 * rest)) by (nonlinear_arith);
        }
        twice.push(sum % 10);
        carry = sum / 10;
        i += 1;
    }
    proof {
        assert(digits@.skip(i as int) =~= Seq::<u8>::empty());
        lemma_value_push(twice@, carry);
    }
    if carry != 0 {
        twice.push(carry);
    }
    twice
}

/// The one-character text of a digit.
pub(crate) fn digit_text(d: u8) -> (text: &'static str)
    requires
        d < 10,
    ensures
        text@ == seq![digit_char(d as nat)],
{
    proof {
        reveal_strlit("0");
        reveal_strlit("1");
        reveal_strlit("2");
        reveal_strlit("3");
        reveal_strlit("4");
        reveal_strlit("5");
        reveal_strlit("6");
        reveal_strlit("7");
        reveal_strlit("8");
        reveal_strlit("9");
    }
    let text = match d {
        0 => "0",
        1 => "1",
        2 => "2",
        3 => "3",
        4 => "4",
        5 => "5",
        6 => "6",
        7 => "7",
        8 => "8",
        _ => "9",
    };
    assert(text@ =~= seq![digit_char(d as nat)]);
    text
}

/// Writes out the number that `digits` stands for.
pub(crate) fn digits_text(digits: &Vec<u8>) -> (out: String)
    requires
        canonical(digits@),
    ensures
        out@ == decimal(value(digits@)),
{
    let mut out = String::new();
    let mut i: usize = digits.len();
    assert(digits@.skip(i as int) =~= Seq::<u8>::empty());
    while i > 0
        invariant
            i <= digits@.len(),
            canonical(digits@),
            out@ == text(digits@.skip(i as int)),
        decreases i,
    {
        i -= 1;
        assert(digits@.skip(i as int).drop_first() =~= digits@.skip(i as int + 1));
        out.append(digit_text(digits[i]));
        assert(out@ =~= text(digits@.skip(i as int)));
    }
    assert(digits@.skip(0) =~= digits@);
    proof {
        lemma_text_is_decimal(digits@);
    }
    out
}

/// The decimal notation of `n`.
pub fn decimal_text(n: u64) -> (out: String)
    ensures
        out@ == decimal(n as nat),
{
    let digits = digits_of(n);
    digits_text(&digits)
}

} // verus!
