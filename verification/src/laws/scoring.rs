//! What holds of confidence scores.

use vstd::arithmetic::div_mod::lemma_fundamental_div_mod;
use vstd::arithmetic::power2::lemma2_to64;
use vstd::arithmetic::power2::lemma_pow2_pos;
use vstd::arithmetic::power2::lemma_pow2_unfold;
use vstd::arithmetic::power2::pow2;
use vstd::prelude::*;

use crate::confidence::{
    at_least, below, bucket_name, exponent, fraction, is_finite, is_nan, is_nearest_double, lemma_magnitude_ordered, lemma_without_sign,
    magnitude, nearest, negative, round_half_even, shown, spacing, thousandths,
};
use crate::decimal::{decimal, digit_char};
use crate::laws::layout::{decimal_notation_is_read_back, digits_value};

verus! {

/// Apart from the sign bit, the bits of the infinities are 0x7FF0_0000_0000_0000. Those of the
/// finite numbers are less, and more than that is no number.
pub proof fn kinds_of_scores(bits: u64)
    ensures
        is_finite(bits) <==> bits % 0x8000_0000_0000_0000 < 0x7FF0_0000_0000_0000,
        is_nan(bits) <==> bits % 0x8000_0000_0000_0000 > 0x7FF0_0000_0000_0000,
        negative(bits) <==> bits / 0x8000_0000_0000_0000 == 1,
{
}

/// The numbers are ordered as their bits are: those without the sign bit upwards, those with
/// it downwards, and below the others, but for the two zeros, which are equal. What is no
/// number is neither below nor above anything.
pub proof fn scores_are_ordered_by_their_bits(a: u64, b: u64)
    ensures
        is_nan(a) || is_nan(b) ==> !below(a, b) && !at_least(a, b),
        !is_nan(a) && !is_nan(b) ==> {
            let x = a % 0x8000_0000_0000_0000;
            let y = b % 0x8000_0000_0000_0000;
            &&& at_least(a, b) == !below(a, b)
            &&& a < 0x8000_0000_0000_0000 && b < 0x8000_0000_0000_0000 ==> (below(a, b) <==> a < b)
            &&& a >= 0x8000_0000_0000_0000 && b >= 0x8000_0000_0000_0000 ==> (below(a, b) <==> a > b)
            &&& a >= 0x8000_0000_0000_0000 && b < 0x8000_0000_0000_0000 ==> (below(a, b) <==> !(x == 0 && y == 0))
            &&& a < 0x8000_0000_0000_0000 && b >= 0x8000_0000_0000_0000 ==> !below(a, b)
        },
{
    let x = (a % 0x8000_0000_0000_0000) as u64;
    let y = (b % 0x8000_0000_0000_0000) as u64;
    lemma_without_sign(a);
    lemma_without_sign(b);
    if x < y {
        lemma_magnitude_ordered(x, y);
    } else if y < x {
        lemma_magnitude_ordered(y, x);
    }
}

/// The size of a score is 0 for the least bits, and the sign has no effect on it.
pub proof fn sizes_start_at_zero(bits: u64)
    requires
        bits < 0x8000_0000_0000_0000,
    ensures
        magnitude(0) == 0,
        magnitude((bits + 0x8000_0000_0000_0000) as u64) == magnitude(bits),
{
    let signed = (bits + 0x8000_0000_0000_0000) as u64;
    lemma_without_sign(signed);
    assert(signed % 0x8000_0000_0000_0000 == bits);
}

proof fn lemma_next_in_binade(e: nat, f: nat)
    requires
        e < 2047,
        f + 1 < 0x10_0000_0000_0000,
    ensures
        magnitude((e * 0x10_0000_0000_0000 + f + 1) as u64) == magnitude((e * 0x10_0000_0000_0000 + f) as u64) + (if e
            == 0 {
            1
        } else {
            pow2((e - 1) as nat)
        }),
{
    let bits = (e * 0x10_0000_0000_0000 + f) as u64;
    let next = (e * 0x10_0000_0000_0000 + f + 1) as u64;
    assert(exponent(bits) == e && fraction(bits) == f);
    assert(exponent(next) == e && fraction(next) == f + 1);
    if e > 0 {
        let p = pow2((e - 1) as nat);
        assert((0x10_0000_0000_0000 + (f + 1)) * p == (0x10_0000_0000_0000 + f) * p + p) by (nonlinear_arith);
    }
}

proof fn lemma_next_binade(e: nat)
    requires
        e < 2047,
    ensures
        magnitude(((e + 1) * 0x10_0000_0000_0000) as u64) == magnitude(
            (e * 0x10_0000_0000_0000 + 0xF_FFFF_FFFF_FFFF) as u64,
        ) + (if e == 0 {
            1
        } else {
            pow2((e - 1) as nat)
        }),
{
    let bits = (e * 0x10_0000_0000_0000 + 0xF_FFFF_FFFF_FFFF) as u64;
    let next = ((e + 1) * 0x10_0000_0000_0000) as u64;
    assert(exponent(bits) == e && fraction(bits) == 0xF_FFFF_FFFF_FFFF);
    assert(exponent(next) == e + 1 && fraction(next) == 0);
    if e == 0 {
        lemma2_to64();
        assert(0x10_0000_0000_0000 * pow2(0) == 0x10_0000_0000_0000);
    } else {
        let p = pow2((e - 1) as nat);
        lemma_pow2_unfold(e);
        assert(0x10_0000_0000_0000 * (2 * p) == (0x10_0000_0000_0000 + 0xF_FFFF_FFFF_FFFF) * p + p) by (nonlinear_arith);
    }
}

/// From one score to the next the size grows by one unit, and by twice as much from each
/// power of two on.
pub proof fn sizes_grow_by_the_exponent(bits: u64)
    requires
        bits < 0x7FF0_0000_0000_0000,
    ensures
        bits < 0x10_0000_0000_0000 ==> magnitude((bits + 1) as u64) == magnitude(bits) + 1,
        bits >= 0x10_0000_0000_0000 ==> magnitude((bits + 1) as u64) == magnitude(bits) + pow2(
            (bits as nat / 0x10_0000_0000_0000 - 1) as nat,
        ),
{
    let e = bits as nat / 0x10_0000_0000_0000;
    let f = bits as nat % 0x10_0000_0000_0000;
    assert(bits == e * 0x10_0000_0000_0000 + f);
    if f + 1 < 0x10_0000_0000_0000 {
        lemma_next_in_binade(e, f);
    } else {
        lemma_next_binade(e);
    }
}

/// A quotient is rounded to a number that is no further from it than one half, and where two
/// are as near, to the even one.
pub proof fn rounding_is_to_the_nearest(num: nat, den: nat)
    requires
        den > 0,
    ensures
        ({
            let n = round_half_even(num, den);
            &&& 2 * num <= 2 * (n * den) + den
            &&& 2 * (n * den) <= 2 * num + den
            &&& 2 * num == 2 * (n * den) + den || 2 * (n * den) == 2 * num + den ==> n % 2 == 0
        }),
{
    lemma_fundamental_div_mod(num as int, den as int);
    let q = num / den;
    let r = num % den;
    let n = round_half_even(num, den);
    assert(q * den == den * q) by (nonlinear_arith);
    assert((q + 1) * den == den * q + den) by (nonlinear_arith);
}

/// What three digits stand for.
proof fn lemma_three_digits(x: nat, y: nat, z: nat)
    requires
        x < 10,
        y < 10,
        z < 10,
    ensures
        ({
            let places = seq![digit_char(x), digit_char(y), digit_char(z)];
            &&& digits_value(places) == 100 * x + 10 * y + z
            &&& forall|i: int| 0 <= i < 3 ==> '0' <= #[trigger] places[i] <= '9'
        }),
{
    let a = digit_char(x);
    let b = digit_char(y);
    let c = digit_char(z);
    reveal_with_fuel(digits_value, 4);
    assert(seq![a, b, c].drop_last() =~= seq![a, b]);
    assert(seq![a, b].drop_last() =~= seq![a]);
    assert(seq![a].drop_last() =~= Seq::<char>::empty());
}

proof fn lemma_digits_add_up(n: nat)
    ensures
        1000 * (n / 1000) + (100 * (n / 100 % 10) + 10 * (n / 10 % 10) + n % 10) == n,
{
    let tens = n / 10;
    let hundreds = n / 100;
    assert(hundreds == tens / 10);
    assert(n / 1000 == hundreds / 10);
    assert(n == 10 * tens + n % 10);
    assert(tens == 10 * hundreds + tens % 10);
    assert(hundreds == 10 * (hundreds / 10) + hundreds % 10);
}

proof fn lemma_point(whole: Seq<char>, a: char, b: char, c: char)
    ensures
        whole + seq!['.', a, b, c] == whole + seq!['.'] + seq![a, b, c],
{
    assert(whole + seq!['.', a, b, c] =~= whole + seq!['.'] + seq![a, b, c]);
}

/// A number is written as its whole part and three places.
proof fn lemma_written(n: nat, q: nat, x: nat, y: nat, z: nat)
    requires
        x < 10,
        y < 10,
        z < 10,
        1000 * q + (100 * x + 10 * y + z) == n,
    ensures
        ({
            let places = seq![digit_char(x), digit_char(y), digit_char(z)];
            &&& decimal(q) + seq!['.', digit_char(x), digit_char(y), digit_char(z)] == decimal(q) + seq!['.'] + places
            &&& 1000 * digits_value(decimal(q)) + digits_value(places) == n
            &&& forall|i: int| 0 <= i < 3 ==> '0' <= #[trigger] places[i] <= '9'
        }),
{
    decimal_notation_is_read_back(q);
    lemma_three_digits(x, y, z);
    lemma_point(decimal(q), digit_char(x), digit_char(y), digit_char(z));
}

proof fn lemma_signed(sign: Seq<char>, whole: Seq<char>, point: Seq<char>, places: Seq<char>)
    ensures
        sign + (whole + point + places) == sign + whole + point + places,
        Seq::<char>::empty() + whole + point + places == whole + point + places,
{
    assert(sign + (whole + point + places) =~= sign + whole + point + places);
    assert(Seq::<char>::empty() + whole =~= whole);
}

/// A finite score is written with three decimal places: a minus sign where it has the sign
/// bit, then the digits of the whole part, a point and three digits. Together the digits stand
/// for the thousandths.
pub proof fn scores_are_written_in_thousandths(bits: u64, n: nat)
    requires
        is_finite(bits),
        n == thousandths(bits),
    ensures
        ({
            let whole = decimal(n / 1000);
            let places = seq![digit_char(n / 100 % 10), digit_char(n / 10 % 10), digit_char(n % 10)];
            &&& shown(bits) == (if bits >= 0x8000_0000_0000_0000 { seq!['-'] } else { Seq::empty() }) + whole
                + seq!['.'] + places
            &&& 1000 * digits_value(whole) + digits_value(places) == n
            &&& forall|i: int| 0 <= i < 3 ==> '0' <= #[trigger] places[i] <= '9'
        }),
{
    let whole = decimal(n / 1000);
    let places = seq![digit_char(n / 100 % 10), digit_char(n / 10 % 10), digit_char(n % 10)];
    lemma_digits_add_up(n);
    lemma_written(n, n / 1000, n / 100 % 10, n / 10 % 10, n % 10);
    lemma_signed(seq!['-'], whole, seq!['.'], places);
}

/// The thousandths of a score are the nearest number of them to it, of two that are as near
/// the even one.
pub proof fn thousandths_are_the_nearest(bits: u64)
    ensures
        ({
            let n = thousandths(bits);
            let size = magnitude(bits) * 1000;
            let one = pow2(1074);
            &&& 2 * size <= 2 * (n * one) + one
            &&& 2 * (n * one) <= 2 * size + one
            &&& 2 * size == 2 * (n * one) + one || 2 * (n * one) == 2 * size + one ==> n % 2 == 0
        }),
{
    lemma_pow2_pos(1074);
    rounding_is_to_the_nearest(magnitude(bits) * 1000, pow2(1074));
}

/// What is not finite is written in letters.
pub proof fn other_scores_are_written_in_letters(bits: u64)
    requires
        !is_finite(bits),
    ensures
        is_nan(bits) ==> shown(bits) == seq!['N', 'a', 'N'],
        !is_nan(bits) && bits < 0x8000_0000_0000_0000 ==> shown(bits) == seq!['i', 'n', 'f'],
        !is_nan(bits) && bits >= 0x8000_0000_0000_0000 ==> shown(bits) == seq!['-', 'i', 'n', 'f'],
{
    assert(seq!['-'] + seq!['i', 'n', 'f'] =~= seq!['-', 'i', 'n', 'f']);
}

/// A score is low below 0.45, medium from there to below 0.7, and high in every other case,
/// no number among them.
pub proof fn buckets_are_these(bits: u64)
    ensures
        below(bits, 0x3FDC_CCCC_CCCC_CCCD) ==> bucket_name(bits) == "low"@,
        !below(bits, 0x3FDC_CCCC_CCCC_CCCD) && below(bits, 0x3FE6_6666_6666_6666) ==> bucket_name(bits) == "medium"@,
        !below(bits, 0x3FDC_CCCC_CCCC_CCCD) && !below(bits, 0x3FE6_6666_6666_6666) ==> bucket_name(bits) == "high"@,
        is_nan(bits) ==> bucket_name(bits) == "high"@,
{
}

/// From 2^53 on, the doubles lie a power of two apart, and the number has fifty-three bits
/// before that place; below, every integer is a double.
proof fn lemma_spacing(n: nat)
    ensures
        spacing(n) >= 1,
        n < 0x20_0000_0000_0000 ==> spacing(n) == 1,
        n >= 0x20_0000_0000_0000 ==> 0x10_0000_0000_0000 * spacing(n) <= n,
        n < 0x20_0000_0000_0000 * spacing(n),
        exists|k: nat| spacing(n) == #[trigger] pow2(k),
    decreases n,
{
    lemma2_to64();
    if n < 0x20_0000_0000_0000 {
        assert(spacing(n) == pow2(0));
    } else {
        lemma_spacing(n / 2);
        let k = choose|k: nat| spacing(n / 2) == #[trigger] pow2(k);
        lemma_pow2_unfold(k + 1);
        assert(spacing(n) == pow2(k + 1));
    }
}

/// An integer becomes a double that is nearest to it: the double has the sign of the integer,
/// and its size is a multiple of the distance between doubles there, a power of two that
/// leaves fifty-three bits, no further from that of the integer than half of that distance,
/// and in between two such multiples the even one.
pub proof fn integers_become_the_nearest_double(bits: u64, n: int)
    requires
        is_nearest_double(bits, n),
    ensures
        is_finite(bits),
        bits >= 0x8000_0000_0000_0000 <==> n < 0,
        ({
            let size = (if n < 0 { -n } else { n }) as nat;
            let unit = spacing(size);
            let m = round_half_even(size, unit);
            &&& magnitude(bits) == (m * unit) * pow2(1074)
            &&& exists|k: nat| unit == #[trigger] pow2(k)
            &&& size < 0x20_0000_0000_0000 * unit
            &&& unit > 1 ==> 0x10_0000_0000_0000 * unit <= size
            &&& 2 * size <= 2 * (m * unit) + unit
            &&& 2 * (m * unit) <= 2 * size + unit
            &&& 2 * size == 2 * (m * unit) + unit || 2 * (m * unit) == 2 * size + unit ==> m % 2 == 0
        }),
{
    let size = (if n < 0 { -n } else { n }) as nat;
    lemma_spacing(size);
    rounding_is_to_the_nearest(size, spacing(size));
    assert(nearest(size) == round_half_even(size, spacing(size)) * spacing(size));
}

} // verus!
