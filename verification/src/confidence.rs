//! Confidence scores.
//!
//! A score is a double-precision number in the interchange format of IEEE 754, held by its
//! sixty-four bits: one sign bit, eleven exponent bits, fifty-two fraction bits. Everything
//! here is integer arithmetic on those bits, stated over the number that they stand for.

use vstd::arithmetic::div_mod::lemma_div_denominator;
use vstd::arithmetic::div_mod::lemma_fundamental_div_mod;
use vstd::arithmetic::div_mod::lemma_fundamental_div_mod_converse;
use vstd::arithmetic::power2::lemma2_to64;
use vstd::arithmetic::power2::lemma2_to64_rest;
use vstd::arithmetic::power2::lemma_pow2_adds;
use vstd::arithmetic::power2::lemma_pow2_pos;
use vstd::arithmetic::power2::lemma_pow2_strictly_increases;
use vstd::arithmetic::power2::lemma_pow2_unfold;
use vstd::arithmetic::power2::pow2;
use vstd::prelude::*;

use crate::decimal::{canonical, decimal, decimal_text, digit_char, digit_text, digits_of, digits_text, doubled, value};

verus! {

/// Confidence threshold below which clarify fires: the bits of 0.45.
pub const LOW_CONF_THRESHOLD: u64 = 0x3FDC_CCCC_CCCC_CCCD;

/// Scores below this one, and not low, are of medium confidence: the bits of 0.7.
pub const HIGH_CONF_THRESHOLD: u64 = 0x3FE6_6666_6666_6666;

/// The score that a run assumes until a binding step reports one: the bits of 1.0.
pub const FULL_CONFIDENCE: u64 = 0x3FF0_0000_0000_0000;

/// Two to the power 52, the weight of the lowest exponent bit.
const FRACTION_SIZE: u64 = 0x10_0000_0000_0000;

/// Two to the power 63, the weight of the sign bit.
const SIGN_WEIGHT: u64 = 0x8000_0000_0000_0000;

/// A confidence score.
#[derive(Debug, Clone, Copy, PartialEq, Eq, Structural)]
pub struct Confidence {
    /// The bits of the double-precision number.
    pub bits: u64,
}

/// The exponent field.
pub open spec fn exponent(bits: u64) -> nat {
    ((bits as nat) / 0x10_0000_0000_0000) % 2048
}

/// The fraction field.
pub open spec fn fraction(bits: u64) -> nat {
    (bits as nat) % 0x10_0000_0000_0000
}

/// The sign bit.
pub open spec fn negative(bits: u64) -> bool {
    bits >= 0x8000_0000_0000_0000
}

/// The bits are those of no number.
pub open spec fn is_nan(bits: u64) -> bool {
    exponent(bits) == 2047 && fraction(bits) != 0
}

/// The bits are those of a number that is not infinite.
pub open spec fn is_finite(bits: u64) -> bool {
    exponent(bits) != 2047
}

/// The absolute value of the number, in units of two to the power -1074, the least positive
/// double. The two infinities count as the first number that is too large for the format.
pub open spec fn magnitude(bits: u64) -> nat {
    if exponent(bits) == 0 {
        fraction(bits)
    } else {
        (0x10_0000_0000_0000 + fraction(bits)) * pow2((exponent(bits) - 1) as nat)
    }
}

/// The number, in the same units.
pub open spec fn scaled(bits: u64) -> int {
    if negative(bits) {
        -(magnitude(bits) as int)
    } else {
        magnitude(bits) as int
    }
}

/// `a < b` as numbers; false where one of them is none.
pub open spec fn below(a: u64, b: u64) -> bool {
    !is_nan(a) && !is_nan(b) && scaled(a) < scaled(b)
}

/// `a >= b` as numbers; false where one of them is none.
pub open spec fn at_least(a: u64, b: u64) -> bool {
    !is_nan(a) && !is_nan(b) && scaled(a) >= scaled(b)
}

/// The quotient rounded to the nearest natural number, a tie to the even one.
pub open spec fn round_half_even(num: nat, den: nat) -> nat {
    let q = num / den;
    let r = num % den;
    if 2 * r < den || (2 * r == den && q % 2 == 0) {
        q
    } else {
        q + 1
    }
}

/// The absolute value of the number in thousandths, rounded.
pub open spec fn thousandths(bits: u64) -> nat {
    round_half_even(magnitude(bits) * 1000, pow2(1074))
}

/// The absolute value of the number, written with three decimal places.
pub open spec fn shown_size(bits: u64) -> Seq<char> {
    if is_finite(bits) {
        let n = thousandths(bits);
        decimal(n / 1000) + seq!['.', digit_char(n / 100 % 10), digit_char(n / 10 % 10), digit_char(n % 10)]
    } else {
        seq!['i', 'n', 'f']
    }
}

/// The number, written with three decimal places, behind a minus sign where the sign bit is
/// set; where it is none, that is said.
pub open spec fn shown(bits: u64) -> Seq<char> {
    if is_nan(bits) {
        seq!['N', 'a', 'N']
    } else if negative(bits) {
        seq!['-'] + shown_size(bits)
    } else {
        shown_size(bits)
    }
}

/// The distance between neighbouring doubles at the natural number `n`, where it is at
/// least one.
pub open spec fn spacing(n: nat) -> nat
    decreases n,
{
    if n < 0x20_0000_0000_0000 {
        1
    } else {
        2 * spacing(n / 2)
    }
}

/// The double nearest to the natural number `n`, a tie going to the even one.
pub open spec fn nearest(n: nat) -> nat {
    round_half_even(n, spacing(n)) * spacing(n)
}

/// `bits` are those of the double nearest to `n`.
pub open spec fn is_nearest_double(bits: u64, n: int) -> bool {
    &&& is_finite(bits)
    &&& negative(bits) == (n < 0)
    &&& magnitude(bits) == nearest((if n < 0 { -n } else { n }) as nat) * pow2(1074)
}

/// How a score is described in words.
pub open spec fn bucket_name(bits: u64) -> Seq<char> {
    if below(bits, LOW_CONF_THRESHOLD) {
        "low"@
    } else if below(bits, HIGH_CONF_THRESHOLD) {
        "medium"@
    } else {
        "high"@
    }
}

proof fn lemma_fields(bits: u64)
    ensures
        fraction(bits) < 0x10_0000_0000_0000,
        exponent(bits) < 2048,
        bits == (if negative(bits) { 0x8000_0000_0000_0000int } else { 0int }) + exponent(bits) * 0x10_0000_0000_0000
            + fraction(bits),
{
}

/// Without the sign bit, the numbers are ordered as their bits are.
pub(crate) proof fn lemma_magnitude_ordered(a: u64, b: u64)
    requires
        a < b < 0x8000_0000_0000_0000,
    ensures
        magnitude(a) < magnitude(b),
{
    lemma_fields(a);
    lemma_fields(b);
    let ea = exponent(a);
    let eb = exponent(b);
    let fa = fraction(a);
    let fb = fraction(b);
    if ea == eb {
        if ea > 0 {
            let p = pow2((ea - 1) as nat);
            lemma_pow2_pos((ea - 1) as nat);
            assert((0x10_0000_0000_0000 + fa) * p < (0x10_0000_0000_0000 + fb) * p) by (nonlinear_arith)
                requires
                    fa < fb,
                    p > 0,
            ;
        }
    } else {
        assert(ea < eb);
        let p = pow2((eb - 1) as nat);
        lemma_pow2_pos((eb - 1) as nat);
        assert(magnitude(b) >= 0x10_0000_0000_0000 * p) by (nonlinear_arith)
            requires
                magnitude(b) == (0x10_0000_0000_0000 + fb) * p,
                p > 0,
                fb >= 0,
        ;
        if ea == 0 {
        } else {
            let q = pow2((ea - 1) as nat);
            lemma_pow2_pos((ea - 1) as nat);
            lemma_pow2_unfold(ea);
            if ea < eb - 1 {
                lemma_pow2_strictly_increases(ea, (eb - 1) as nat);
            }
            assert(2 * q <= p);
            assert((0x10_0000_0000_0000 + fa) * q < 0x10_0000_0000_0000 * p) by (nonlinear_arith)
                requires
                    fa < 0x10_0000_0000_0000,
                    2 * q <= p,
                    q > 0,
            ;
        }
    }
}

pub(crate) proof fn lemma_without_sign(bits: u64)
    ensures
        magnitude((bits % 0x8000_0000_0000_0000) as u64) == magnitude(bits),
        is_nan((bits % 0x8000_0000_0000_0000) as u64) == is_nan(bits),
        bits % 0x8000_0000_0000_0000 == 0 <==> magnitude(bits) == 0,
{
    let low = (bits % 0x8000_0000_0000_0000) as u64;
    lemma_fields(bits);
    lemma_fields(low);
    assert(magnitude(0) == 0);
    if low > 0 {
        lemma_magnitude_ordered(0, low);
    }
}

/// Equal bits apart, no two numbers without the sign bit have the same absolute value.
pub proof fn magnitude_determines_bits(a: u64, b: u64)
    requires
        !negative(a),
        !negative(b),
        magnitude(a) == magnitude(b),
    ensures
        a == b,
{
    if a < b {
        lemma_magnitude_ordered(a, b);
    } else if b < a {
        lemma_magnitude_ordered(b, a);
    }
}

/// An integer of at most fifty-three bits is a double itself.
pub proof fn small_integers_are_exact(n: nat)
    requires
        n < 0x20_0000_0000_0000,
    ensures
        nearest(n) == n,
{
    assert(spacing(n) == 1);
}

/// The number with exponent field `e` and significand `m`, which may be one too large.
proof fn lemma_composed(e: nat, m: nat)
    requires
        1 <= e < 2046,
        0x10_0000_0000_0000 <= m <= 0x20_0000_0000_0000,
    ensures
        e * 0x10_0000_0000_0000 + (m - 0x10_0000_0000_0000) < 0x8000_0000_0000_0000,
        magnitude((e * 0x10_0000_0000_0000 + (m - 0x10_0000_0000_0000)) as u64) == m * pow2((e - 1) as nat),
        is_finite((e * 0x10_0000_0000_0000 + (m - 0x10_0000_0000_0000)) as u64),
{
    let bits = (e * 0x10_0000_0000_0000 + (m - 0x10_0000_0000_0000)) as u64;
    if m < 0x20_0000_0000_0000 {
        assert(exponent(bits) == e);
        assert(fraction(bits) == m - 0x10_0000_0000_0000);
    } else {
        assert(exponent(bits) == e + 1);
        assert(fraction(bits) == 0);
        lemma_pow2_unfold(e);
        let p = pow2((e - 1) as nat);
        assert(0x10_0000_0000_0000 * (2 * p) == 0x20_0000_0000_0000 * p) by (nonlinear_arith);
    }
}

proof fn lemma_round_cancels(num: nat, den: nat, k: nat)
    requires
        den > 0,
        k > 0,
    ensures
        round_half_even(num * k, den * k) == round_half_even(num, den),
        den * k > 0,
{
    let q = num / den;
    let r = num % den;
    lemma_fundamental_div_mod(num as int, den as int);
    assert(num * k == q * (den * k) + r * k && r * k < den * k && den * k > 0) by (nonlinear_arith)
        requires
            num == den * q + r,
            r < den,
            k > 0,
    ;
    lemma_fundamental_div_mod_converse((num * k) as int, (den * k) as int, q as int, (r * k) as int);
    assert((2 * r < den <==> 2 * (r * k) < den * k) && (2 * r == den <==> 2 * (r * k) == den * k)) by (nonlinear_arith)
        requires
            k > 0,
    ;
}

proof fn lemma_power_table(s: nat)
    requires
        s < 64,
    ensures
        pow2(s) <= 0x8000_0000_0000_0000,
{
    lemma2_to64_rest();
    if s < 63 {
        lemma_pow2_strictly_increases(s, 63);
    }
}

/// Two to the power `s`.
fn power(s: u64) -> (p: u64)
    requires
        s < 64,
    ensures
        p == pow2(s as nat),
    decreases s,
{
    proof {
        lemma2_to64();
        lemma_power_table(s as nat);
    }
    if s == 0 {
        1
    } else {
        proof {
            lemma_pow2_unfold(s as nat);
        }
        2 * power(s - 1)
    }
}

impl Confidence {
    /// The score that the bits stand for.
    pub fn from_bits(bits: u64) -> (score: Confidence)
        ensures
            score.bits == bits,
    {
        Confidence { bits }
    }

    /// True where this is a number and not infinite.
    pub fn is_finite(self) -> (yes: bool)
        ensures
            yes == is_finite(self.bits),
    {
        (self.bits / FRACTION_SIZE) % 2048 != 2047
    }

    fn is_nan(self) -> (yes: bool)
        ensures
            yes == is_nan(self.bits),
    {
        (self.bits / FRACTION_SIZE) % 2048 == 2047 && self.bits % FRACTION_SIZE != 0
    }

    /// True where this number is less than `limit`.
    pub fn is_below(self, limit: Confidence) -> (yes: bool)
        ensures
            yes == below(self.bits, limit.bits),
    {
        if self.is_nan() || limit.is_nan() {
            return false;
        }
        let a: u64 = self.bits % SIGN_WEIGHT;
        let b: u64 = limit.bits % SIGN_WEIGHT;
        proof {
            lemma_without_sign(self.bits);
            lemma_without_sign(limit.bits);
            if a < b {
                lemma_magnitude_ordered(a, b);
            } else if b < a {
                lemma_magnitude_ordered(b, a);
            }
        }
        if self.bits >= SIGN_WEIGHT {
            if limit.bits >= SIGN_WEIGHT {
                b < a
            } else {
                a != 0 || b != 0
            }
        } else {
            limit.bits < SIGN_WEIGHT && a < b
        }
    }

    /// True where this number is `limit` or more.
    pub fn is_at_least(self, limit: Confidence) -> (yes: bool)
        ensures
            yes == at_least(self.bits, limit.bits),
    {
        !self.is_nan() && !limit.is_nan() && !self.is_below(limit)
    }

    /// How the score is described in words.
    pub fn bucket(self) -> (name: &'static str)
        ensures
            name@ == bucket_name(self.bits),
    {
        if self.is_below(Confidence { bits: LOW_CONF_THRESHOLD }) {
            "low"
        } else if self.is_below(Confidence { bits: HIGH_CONF_THRESHOLD }) {
            "medium"
        } else {
            "high"
        }
    }

    /// The absolute value of the number in thousandths, rounded, where no more than fifty-two
    /// bits stand before the binary point.
    fn thousandths(self) -> (n: u64)
        requires
            exponent(self.bits) < 1075,
        ensures
            n == thousandths(self.bits),
            n <= 0x7FFF_FFFF_FFFF_FFFF,
    {
        let e: u64 = (self.bits / FRACTION_SIZE) % 2048;
        let m: u64 = if e == 0 { self.bits % FRACTION_SIZE } else { FRACTION_SIZE + self.bits % FRACTION_SIZE };
        let shift: u64 = if e == 0 { 1074 } else { 1075 - e };
        let ghost k = pow2((1074 - shift) as nat);
        proof {
            lemma_fields(self.bits);
            lemma2_to64();
            lemma2_to64_rest();
            lemma_pow2_pos((1074 - shift) as nat);
            lemma_pow2_pos(shift as nat);
            lemma_pow2_adds(shift as nat, (1074 - shift) as nat);
            assert(magnitude(self.bits) == m * k) by {
                assert(m * 1 == m);
            }
            assert((m * k) * 1000 == (m * 1000) * k) by (nonlinear_arith);
            lemma_round_cancels((m * 1000) as nat, pow2(shift as nat), k);
        }
        if shift >= 64 {
            proof {
                if shift > 64 {
                    lemma_pow2_strictly_increases(64, shift as nat);
                }
                lemma_fundamental_div_mod_converse((m * 1000) as int, pow2(shift as nat) as int, 0, (m * 1000) as int);
            }
            return 0;
        }
        let den: u64 = power(shift);
        let num: u64 = m * 1000;
        let q: u64 = num / den;
        let r: u64 = num % den;
        let up: bool = !(r < den - r || (r == den - r && q % 2 == 0));
        if up {
            q + 1
        } else {
            q
        }
    }

    /// The number, written with three decimal places.
    pub fn shown(self) -> (out: String)
        ensures
            out@ == shown(self.bits),
    {
        if self.is_nan() {
            let out = "NaN".to_string();
            proof {
                reveal_strlit("NaN");
                assert(out@ =~= seq!['N', 'a', 'N']);
            }
            return out;
        }
        let size = self.shown_size();
        if self.bits < SIGN_WEIGHT {
            return size;
        }
        let mut out = "-".to_string();
        out.append(size.as_str());
        proof {
            reveal_strlit("-");
            assert(out@ =~= shown(self.bits));
        }
        out
    }

    /// The absolute value of the number, written with three decimal places.
    fn shown_size(self) -> (out: String)
        requires
            !is_nan(self.bits),
        ensures
            out@ == shown_size(self.bits),
    {
        let e: u64 = (self.bits / FRACTION_SIZE) % 2048;
        if e == 2047 {
            let out = "inf".to_string();
            proof {
                reveal_strlit("inf");
                assert(out@ =~= seq!['i', 'n', 'f']);
            }
            return out;
        }
        if e >= 1075 {
            return self.shown_large();
        }
        let n: u64 = self.thousandths();
        let mut out = decimal_text(n / 1000);
        out.append(".");
        out.append(digit_text((n / 100 % 10) as u8));
        out.append(digit_text((n / 10 % 10) as u8));
        out.append(digit_text((n % 10) as u8));
        proof {
            reveal_strlit(".");
            assert(out@ =~= shown_size(self.bits));
        }
        out
    }

    /// The same, where all bits stand before the binary point.
    fn shown_large(self) -> (out: String)
        requires
            1075 <= exponent(self.bits) < 2047,
        ensures
            out@ == shown_size(self.bits),
    {
        let e: u64 = (self.bits / FRACTION_SIZE) % 2048;
        let m: u64 = FRACTION_SIZE + self.bits % FRACTION_SIZE;
        let mut digits = digits_of(m);
        let mut left: u64 = e - 1075;
        let ghost whole = m * pow2((e - 1075) as nat);
        proof {
            lemma2_to64();
            assert(m < 0x20_0000_0000_0000);
        }
        while left > 0
            invariant
                left <= 971,
                canonical(digits@),
                digits@.last() != 0,
                digits@.len() + left <= 1000,
                value(digits@) * pow2(left as nat) == whole,
            decreases left,
        {
            proof {
                lemma_pow2_unfold(left as nat);
                let p = pow2((left - 1) as nat);
                let v = value(digits@);
                assert((2 * v) * p == v * (2 * p)) by (nonlinear_arith);
            }
            digits = doubled(&digits);
            left = left - 1;
        }
        let mut out = digits_text(&digits);
        out.append(".000");
        proof {
            lemma2_to64();
            assert(value(digits@) * 1 == value(digits@));
            reveal_strlit(".000");
            lemma_fields(self.bits);
            let k = pow2(1074);
            lemma_pow2_pos(1074);
            lemma_pow2_adds((e - 1075) as nat, 1074);
            let p = pow2((e - 1075) as nat);
            assert((m * (p * k)) * 1000 == (((m * p) * 1000) * k)) by (nonlinear_arith);
            lemma_fundamental_div_mod_converse(((whole * 1000) * k) as int, k as int, (whole * 1000) as int, 0);
            assert(thousandths(self.bits) == whole * 1000);
            assert(out@ =~= shown_size(self.bits));
        }
        out
    }

    /// The double nearest to `n`.
    pub fn from_unsigned(n: u64) -> (score: Confidence)
        ensures
            is_nearest_double(score.bits, n as int),
    {
        proof {
            lemma2_to64();
            lemma2_to64_rest();
        }
        if n == 0 {
            proof {
                assert(spacing(0) == 1);
                assert(round_half_even(0, 1) == 0);
                assert(0 * pow2(1074) == 0) by (nonlinear_arith);
            }
            return Confidence { bits: 0 };
        }
        if n < 2 * FRACTION_SIZE {
            Self::from_small(n)
        } else {
            Self::from_large(n)
        }
    }

    /// The double that is `n`, which has at most fifty-three bits.
    fn from_small(n: u64) -> (score: Confidence)
        requires
            0 < n < 0x20_0000_0000_0000,
        ensures
            is_nearest_double(score.bits, n as int),
    {
        let mut m: u64 = n;
        let mut e: u64 = 1075;
        proof {
            lemma2_to64();
            lemma2_to64_rest();
        }
        while m < FRACTION_SIZE
            invariant
                0 < n < 0x20_0000_0000_0000,
                0 < m < 0x20_0000_0000_0000,
                1023 <= e <= 1075,
                m >= pow2((1075 - e) as nat),
                m * pow2((e - 1) as nat) == n * pow2(1074),
                pow2(52) == 0x10_0000_0000_0000,
            decreases e,
        {
            proof {
                if e == 1023 {
                    assert(false);
                }
                lemma_pow2_unfold((e - 1) as nat);
                lemma_pow2_unfold((1075 - (e - 1)) as nat);
                let p = pow2((e - 2) as nat);
                assert((2 * m) * p == m * (2 * p)) by (nonlinear_arith);
            }
            m = 2 * m;
            e = e - 1;
        }
        proof {
            lemma_composed(e as nat, m as nat);
            small_integers_are_exact(n as nat);
        }
        Confidence { bits: e * FRACTION_SIZE + (m - FRACTION_SIZE) }
    }

    /// The double nearest to `n`, which has fifty-four bits or more.
    fn from_large(n: u64) -> (score: Confidence)
        requires
            n >= 0x20_0000_0000_0000,
        ensures
            is_nearest_double(score.bits, n as int),
    {
        let mut q: u64 = n;
        let mut unit: u64 = 1;
        let mut k: u64 = 0;
        proof {
            lemma2_to64();
            lemma2_to64_rest();
        }
        while q >= 2 * FRACTION_SIZE
            invariant
                n >= 0x20_0000_0000_0000,
                q >= 0x10_0000_0000_0000,
                k == 0 ==> q == n,
                unit == pow2(k as nat),
                q * unit <= n,
                q == n / unit,
                unit >= 1,
                k <= 11,
                spacing(n as nat) == unit * spacing(q as nat),
                pow2(11) == 0x800,
            decreases q,
        {
            proof {
                if k == 11 {
                    assert(q * 0x800 <= n);
                    assert(false);
                }
                lemma_pow2_unfold((k + 1) as nat);
                lemma_pow2_strictly_increases(k as nat, 11);
                lemma_div_denominator(n as int, unit as int, 2);
                let half = q / 2;
                let s = spacing(half as nat);
                assert(unit * (2 * s) == (2 * unit) * s) by (nonlinear_arith);
                assert(half * (2 * unit) <= q * unit) by (nonlinear_arith)
                    requires
                        half * 2 <= q,
                        unit >= 1,
                ;
                assert(unit * 2 == 2 * unit) by (nonlinear_arith);
            }
            q = q / 2;
            unit = 2 * unit;
            k = k + 1;
        }
        let r: u64 = n % unit;
        proof {
            assert(spacing(q as nat) == 1);
            assert(unit * spacing(q as nat) == unit) by (nonlinear_arith)
                requires
                    spacing(q as nat) == 1,
            ;
            assert(r < unit);
            lemma_power_table(k as nat);
            assert(unit <= 0x800) by {
                if k < 11 {
                    lemma_pow2_strictly_increases(k as nat, 11);
                }
            }
        }
        let rounded: u64 = if 2 * r < unit || (2 * r == unit && q % 2 == 0) { q } else { q + 1 };
        proof {
            assert(rounded == round_half_even(n as nat, unit as nat));
            lemma_composed((1075 + k) as nat, rounded as nat);
            lemma_pow2_adds(1074, k as nat);
            assert(rounded * (pow2(1074) * unit) == (rounded * unit) * pow2(1074)) by (nonlinear_arith);
        }
        Confidence { bits: (1075 + k) * FRACTION_SIZE + (rounded - FRACTION_SIZE) }
    }

    /// The double nearest to `n`.
    pub fn from_signed(n: i64) -> (score: Confidence)
        ensures
            is_nearest_double(score.bits, n as int),
    {
        if n >= 0 {
            return Self::from_unsigned(n as u64);
        }
        let size: u64 = if n == i64::MIN { SIGN_WEIGHT } else { (-n) as u64 };
        let positive = Self::from_unsigned(size);
        proof {
            let bits = (positive.bits + 0x8000_0000_0000_0000) as u64;
            assert(bits % 0x8000_0000_0000_0000 == positive.bits);
            lemma_without_sign(bits);
            lemma_fields(bits);
            lemma_fields(positive.bits);
        }
        Confidence { bits: positive.bits + SIGN_WEIGHT }
    }
}

} // verus!
