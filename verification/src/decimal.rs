//! Decimal numbers counted exactly in thousandths: marks and minutes.
//!
//! Numerals are read as JSON writes numbers, with or without an exponent.

use vstd::prelude::*;
use crate::text::{
    chars_of, decimal_digits, digit_char, digit_value, find_first, index_of, is_digit,
    lemma_index_of_is_first, push_decimal,
};

verus! {

/// The largest magnitude, in thousandths, that a numeral may stand for.
pub const DECIMAL_LIMIT: i128 = 1_000_000_000_000_000;

/// A number held in thousandths, so that sums are exact.
#[derive(Clone, Copy, Debug, PartialEq, Eq, Structural)]
pub struct Decimal {
    pub thousandths: i128,
}

/// Whether every character of `s` is a decimal digit.
pub open spec fn all_digits(s: Seq<char>) -> bool {
    forall|i: int| 0 <= i < s.len() ==> is_digit(#[trigger] s[i])
}

/// The number that the digit string `s` writes.
pub open spec fn digits_value(s: Seq<char>) -> nat
    decreases s.len(),
{
    if s.len() == 0 {
        0
    } else {
        digits_value(s.drop_last()) * 10 + digit_value(s.last())
    }
}

/// A numeral without its leading minus sign.
pub open spec fn unsigned_part(s: Seq<char>) -> Seq<char> {
    if s.len() > 0 && s[0] == '-' {
        s.skip(1)
    } else {
        s
    }
}

/// The digits before the decimal point of an unsigned numeral.
pub open spec fn whole_part(body: Seq<char>) -> Seq<char> {
    body.take(index_of(body, '.'))
}

/// Whether an unsigned numeral has a decimal point.
pub open spec fn has_point(body: Seq<char>) -> bool {
    index_of(body, '.') < body.len()
}

/// The digits after the decimal point of an unsigned numeral.
pub open spec fn fraction_part(body: Seq<char>) -> Seq<char> {
    if has_point(body) {
        body.skip(index_of(body, '.') + 1)
    } else {
        Seq::empty()
    }
}

/// The position of the exponent mark of an unsigned numeral, an `e` of
/// either case, or its length where it has none.
pub open spec fn exponent_mark(body: Seq<char>) -> int {
    if index_of(body, 'e') <= index_of(body, 'E') {
        index_of(body, 'e')
    } else {
        index_of(body, 'E')
    }
}

/// Whether an unsigned numeral has an exponent.
pub open spec fn has_exponent(body: Seq<char>) -> bool {
    exponent_mark(body) < body.len()
}

/// An unsigned numeral up to its exponent mark.
pub open spec fn mantissa_part(body: Seq<char>) -> Seq<char> {
    body.take(exponent_mark(body))
}

/// What follows the exponent mark of an unsigned numeral: the exponent
/// with its sign.
pub open spec fn exponent_part(body: Seq<char>) -> Seq<char> {
    if has_exponent(body) {
        body.skip(exponent_mark(body) + 1)
    } else {
        Seq::empty()
    }
}

/// An exponent without its sign.
pub open spec fn exponent_digits(exponent: Seq<char>) -> Seq<char> {
    if exponent.len() > 0 && (exponent[0] == '-' || exponent[0] == '+') {
        exponent.skip(1)
    } else {
        exponent
    }
}

/// The number that an exponent writes.
pub open spec fn exponent_value(exponent: Seq<char>) -> int {
    if exponent.len() > 0 && exponent[0] == '-' {
        -(digits_value(exponent_digits(exponent)) as int)
    } else {
        digits_value(exponent_digits(exponent)) as int
    }
}

/// A decimal numeral: an optional minus sign, one or more digits,
/// optionally a point followed by one or more digits, and optionally an
/// exponent, which is an `e` of either case, an optional sign and one or
/// more digits.
pub open spec fn is_decimal(s: Seq<char>) -> bool {
    is_unsigned_decimal(unsigned_part(s))
}

/// A decimal numeral without a sign before it.
pub open spec fn is_unsigned_decimal(body: Seq<char>) -> bool {
    let mantissa = mantissa_part(body);
    &&& whole_part(mantissa).len() > 0
    &&& all_digits(whole_part(mantissa))
    &&& all_digits(fraction_part(mantissa))
    &&& has_point(mantissa) ==> fraction_part(mantissa).len() > 0
    &&& has_exponent(body) ==> exponent_digits(exponent_part(body)).len() > 0 && all_digits(
        exponent_digits(exponent_part(body)),
    )
}

/// The digits of an unsigned numeral, those before the point and those
/// after it in one row.
pub open spec fn significant_digits(body: Seq<char>) -> Seq<char> {
    whole_part(mantissa_part(body)) + fraction_part(mantissa_part(body))
}

/// How many of the digits of an unsigned numeral stand before the point
/// once the exponent is worked in. It may lie before the first digit or
/// after the last.
pub open spec fn point_position(body: Seq<char>) -> int {
    whole_part(mantissa_part(body)).len() + exponent_value(exponent_part(body))
}

/// The digit of `digits` at position `i`, and zero before its start and
/// past its end.
pub open spec fn digit_at(digits: Seq<char>, i: int) -> nat {
    if 0 <= i < digits.len() {
        digit_value(digits[i])
    } else {
        0
    }
}

/// The number that the first `n` digits of `digits` write, with zeros for
/// the digits past its end; zero where `n` is not positive.
pub open spec fn leading_value(digits: Seq<char>, n: int) -> nat
    decreases n,
{
    if n <= 0 {
        0
    } else {
        leading_value(digits, n - 1) * 10 + digit_at(digits, n - 1)
    }
}

/// The magnitude of an unsigned numeral in thousandths, rounded half up on
/// the digit that follows the thousandths.
pub open spec fn magnitude_thousandths(body: Seq<char>) -> nat {
    let digits = significant_digits(body);
    let kept = point_position(body) + 3;
    leading_value(digits, kept) + if digit_at(digits, kept) >= 5 {
        1nat
    } else {
        0nat
    }
}

/// What a numeral reads as, in thousandths: the value of a decimal
/// numeral rounded to the nearest thousandth, and `DECIMAL_LIMIT` with the
/// sign of the numeral where its magnitude lies beyond that; nothing for a
/// text that is no decimal numeral.
pub open spec fn decimal_thousandths(s: Seq<char>) -> Option<int> {
    let body = unsigned_part(s);
    if is_decimal(s) {
        let magnitude = if magnitude_thousandths(body) <= DECIMAL_LIMIT {
            magnitude_thousandths(body) as int
        } else {
            DECIMAL_LIMIT as int
        };
        if s[0] == '-' {
            Some(-magnitude)
        } else {
            Some(magnitude)
        }
    } else {
        None
    }
}

/// Ten to the power of `k`.
pub open spec fn ten_to(k: nat) -> nat
    decreases k,
{
    if k == 0 {
        1
    } else {
        10 * ten_to((k - 1) as nat)
    }
}

/// Fewer leading digits write no more than more of them.
pub proof fn lemma_leading_value_grows(digits: Seq<char>, i: int, n: int)
    requires
        i <= n,
    ensures
        leading_value(digits, i) <= leading_value(digits, n),
    decreases n - i,
{
    if i < n {
        lemma_leading_value_grows(digits, i, n - 1);
    }
}

/// Where all the digits write zero, so do they with zeros after them.
pub proof fn lemma_leading_value_stays_zero(digits: Seq<char>, n: int)
    requires
        leading_value(digits, digits.len() as int) == 0,
        n >= digits.len(),
    ensures
        leading_value(digits, n) == 0,
    decreases n,
{
    if n > digits.len() {
        lemma_leading_value_stays_zero(digits, n - 1);
    }
}

/// Where the digits write a number that is not zero, each zero after them
/// makes it ten times larger.
pub proof fn lemma_leading_value_scales(digits: Seq<char>, k: nat)
    requires
        leading_value(digits, digits.len() as int) >= 1,
    ensures
        leading_value(digits, (digits.len() + k) as int) >= ten_to(k),
    decreases k,
{
    if k > 0 {
        lemma_leading_value_scales(digits, (k - 1) as nat);
    }
}

/// The magnitude of a number.
pub open spec fn magnitude(n: int) -> nat {
    if n < 0 {
        (-n) as nat
    } else {
        n as nat
    }
}

/// A value in thousandths rounded to tenths, half away from zero.
pub open spec fn rounded_tenths(magnitude: nat) -> nat {
    (magnitude + 50) / 100
}

/// The numeral of a value in thousandths with one digit after the point.
pub open spec fn tenths_numeral(thousandths: int) -> Seq<char> {
    let tenths = rounded_tenths(magnitude(thousandths));
    let sign = if thousandths < 0 && tenths > 0 {
        seq!['-']
    } else {
        Seq::<char>::empty()
    };
    sign + decimal_digits(tenths / 10).push('.').push(digit_char(tenths % 10))
}

/// A prefix of a digit string writes no more than the whole string.
pub proof fn lemma_digits_value_prefix(s: Seq<char>, i: int)
    requires
        0 <= i <= s.len(),
    ensures
        digits_value(s.take(i)) <= digits_value(s),
    decreases s.len() - i,
{
    if i < s.len() {
        let longer = s.take(i + 1);
        assert(longer.drop_last() =~= s.take(i));
        lemma_digits_value_prefix(s, i + 1);
    } else {
        assert(s.take(i) =~= s);
    }
}

fn digit_number(c: char) -> (d: u8)
    requires
        is_digit(c),
    ensures
        d == digit_value(c),
        d <= 9,
{
    ((c as u32) - ('0' as u32)) as u8
}

fn is_digit_char(c: char) -> (b: bool)
    ensures
        b == is_digit(c),
{
    '0' <= c && c <= '9'
}

/// Whether `cs[from..to]` holds digits only.
fn digits_only(cs: &Vec<char>, from: usize, to: usize) -> (b: bool)
    requires
        from <= to <= cs.len(),
    ensures
        b == all_digits(cs@.subrange(from as int, to as int)),
{
    let ghost part = cs@.subrange(from as int, to as int);
    let mut i: usize = from;
    while i < to
        invariant
            from <= i <= to <= cs.len(),
            part == cs@.subrange(from as int, to as int),
            forall|j: int| 0 <= j < i - from ==> is_digit(#[trigger] part[j]),
        decreases to - i,
    {
        if !is_digit_char(cs[i]) {
            assert(part[i - from] == cs@[i as int]);
            return false;
        }
        assert(part[i - from] == cs@[i as int]);
        i += 1;
    }
    true
}

/// The number that the digits `cs[from..to]` write, where it is at most `cap`.
fn digits_number(cs: &Vec<char>, from: usize, to: usize, cap: u128) -> (r: Option<u128>)
    requires
        from <= to <= cs.len(),
        all_digits(cs@.subrange(from as int, to as int)),
        cap <= 1_000_000_000_000_000_000_000_000_000_000,
    ensures
        match r {
            Some(n) => n == digits_value(cs@.subrange(from as int, to as int)) && n <= cap,
            None => digits_value(cs@.subrange(from as int, to as int)) > cap,
        },
{
    let ghost part = cs@.subrange(from as int, to as int);
    let mut acc: u128 = 0;
    let mut i: usize = from;
    while i < to
        invariant
            from <= i <= to <= cs.len(),
            part == cs@.subrange(from as int, to as int),
            all_digits(part),
            acc == digits_value(part.take(i - from)),
            acc <= cap,
            cap <= 1_000_000_000_000_000_000_000_000_000_000,
        decreases to - i,
    {
        assert(part[i - from] == cs@[i as int]);
        let d = digit_number(cs[i]);
        let next: u128 = acc * 10 + d as u128;
        proof {
            let longer = part.take(i - from + 1);
            assert(longer.drop_last() =~= part.take(i - from));
            assert(longer.last() == part[i - from]);
            assert(next == digits_value(longer));
            lemma_digits_value_prefix(part, i - from + 1);
        }
        if next > cap {
            return None;
        }
        acc = next;
        i += 1;
    }
    proof {
        assert(part.take(to - from) =~= part);
    }
    Some(acc)
}

/// The characters `cs[from..to]`.
fn slice_of(cs: &Vec<char>, from: usize, to: usize) -> (r: Vec<char>)
    requires
        from <= to <= cs.len(),
    ensures
        r@ == cs@.subrange(from as int, to as int),
{
    let mut out: Vec<char> = Vec::new();
    let mut i: usize = from;
    while i < to
        invariant
            from <= i <= to <= cs.len(),
            out@ == cs@.subrange(from as int, i as int),
        decreases to - i,
    {
        out.push(cs[i]);
        i += 1;
    }
    out
}

/// The digit of `digits` at position `i`, and zero before its start and
/// past its end.
fn digit_or_zero(digits: &Vec<char>, i: i128) -> (d: u128)
    requires
        all_digits(digits@),
    ensures
        d == digit_at(digits@, i as int),
        d <= 9,
{
    if 0 <= i && i < digits.len() as i128 {
        digit_number(digits[i as usize]) as u128
    } else {
        0
    }
}

/// The number that the first `n` digits of `digits` write, and one more
/// than `DECIMAL_LIMIT` where that number lies beyond the limit.
fn leading_number(digits: &Vec<char>, n: i128) -> (r: u128)
    requires
        all_digits(digits@),
        n <= digits.len() + 20,
    ensures
        r == if leading_value(digits@, n as int) > DECIMAL_LIMIT {
            DECIMAL_LIMIT + 1
        } else {
            leading_value(digits@, n as int) as int
        },
{
    let mut acc: u128 = 0;
    let mut i: i128 = 0;
    while i < n
        invariant
            0 <= i,
            i <= n || (n < 0 && i == 0),
            n <= digits.len() + 20,
            all_digits(digits@),
            acc == leading_value(digits@, i as int),
            acc <= DECIMAL_LIMIT,
        decreases n - i,
    {
        let next: u128 = acc * 10 + digit_or_zero(digits, i);
        assert(next == leading_value(digits@, i + 1));
        if next > 1_000_000_000_000_000 {
            proof {
                lemma_leading_value_grows(digits@, i + 1, n as int);
            }
            return 1_000_000_000_000_001;
        }
        acc = next;
        i += 1;
    }
    acc
}

/// The magnitude in thousandths that `digits` write with `kept` of them
/// before the thousandths end, rounded half up and held to
/// `DECIMAL_LIMIT`.
fn rounded_magnitude(digits: &Vec<char>, kept: i128) -> (r: u128)
    requires
        all_digits(digits@),
    ensures
        r <= DECIMAL_LIMIT,
        r == ({
            let exact = leading_value(digits@, kept as int) + if digit_at(digits@, kept as int) >= 5 {
                1nat
            } else {
                0nat
            };
            if exact <= DECIMAL_LIMIT {
                exact as int
            } else {
                DECIMAL_LIMIT as int
            }
        }),
{
    let length = digits.len() as i128;
    if kept >= length + 20 {
        let written = leading_number(digits, length);
        proof {
            if written == 0 {
                lemma_leading_value_stays_zero(digits@, kept as int);
            } else {
                if leading_value(digits@, length as int) <= DECIMAL_LIMIT {
                    lemma_leading_value_scales(digits@, 16);
                    reveal_with_fuel(ten_to, 17);
                    assert(ten_to(16) == 10_000_000_000_000_000);
                }
                lemma_leading_value_grows(digits@, length + 16, kept as int);
                lemma_leading_value_grows(digits@, length as int, kept as int);
            }
        }
        if written == 0 {
            0
        } else {
            1_000_000_000_000_000
        }
    } else {
        let written = leading_number(digits, kept);
        let round: u128 = if digit_or_zero(digits, kept) >= 5 {
            1
        } else {
            0
        };
        if written + round > 1_000_000_000_000_000 {
            1_000_000_000_000_000
        } else {
            written + round
        }
    }
}

/// Far past the digits it makes no difference how far: the rounded
/// magnitude is zero where the digits write zero, and beyond the limit
/// otherwise.
proof fn lemma_rounded_alike_far(digits: Seq<char>, near: int, far: int)
    requires
        near >= digits.len() + 20,
        far >= near,
    ensures
        digit_at(digits, near) == 0,
        digit_at(digits, far) == 0,
        leading_value(digits, near) <= DECIMAL_LIMIT ==> leading_value(digits, near) == 0 && leading_value(
            digits,
            far,
        ) == 0,
        leading_value(digits, near) > DECIMAL_LIMIT ==> leading_value(digits, far) > DECIMAL_LIMIT,
{
    let length = digits.len() as int;
    lemma_leading_value_grows(digits, near, far);
    if leading_value(digits, length) == 0 {
        lemma_leading_value_stays_zero(digits, near);
        lemma_leading_value_stays_zero(digits, far);
    } else {
        lemma_leading_value_scales(digits, 16);
        reveal_with_fuel(ten_to, 17);
        assert(ten_to(16) == 10_000_000_000_000_000);
        lemma_leading_value_grows(digits, length + 16, near);
    }
}

/// The parts of an unsigned numeral.
struct NumeralParts {
    whole: Vec<char>,
    fraction: Vec<char>,
    power: Vec<char>,
    downward: bool,
}

/// Takes an unsigned numeral apart: the digits before the point, those
/// after it, the digits of the exponent, and whether the exponent is
/// negative. Gives nothing for a text that is no decimal numeral.
fn split_numeral(body: &Vec<char>) -> (r: Option<NumeralParts>)
    ensures
        match r {
            Some(parts) => {
                &&& is_unsigned_decimal(body@)
                &&& parts.whole@ == whole_part(mantissa_part(body@))
                &&& parts.fraction@ == fraction_part(mantissa_part(body@))
                &&& parts.power@ == exponent_digits(exponent_part(body@))
                &&& parts.downward == (exponent_part(body@).len() > 0 && exponent_part(body@)[0] == '-')
                &&& all_digits(parts.whole@)
                &&& all_digits(parts.fraction@)
                &&& all_digits(parts.power@)
            },
            None => !is_unsigned_decimal(body@),
        },
{
    let small = find_first(body, 'e');
    let capital = find_first(body, 'E');
    let mark = if small <= capital {
        small
    } else {
        capital
    };
    let mantissa = slice_of(body, 0, mark);
    assert(mantissa@ =~= mantissa_part(body@));
    let point = find_first(&mantissa, '.');
    proof {
        lemma_index_of_is_first(mantissa@, '.');
    }
    let whole = slice_of(&mantissa, 0, point);
    assert(whole@ =~= whole_part(mantissa@));
    let fraction = if point < mantissa.len() {
        slice_of(&mantissa, point + 1, mantissa.len())
    } else {
        Vec::new()
    };
    assert(fraction@ =~= fraction_part(mantissa@));
    assert(whole@.subrange(0, whole@.len() as int) =~= whole@);
    assert(fraction@.subrange(0, fraction@.len() as int) =~= fraction@);
    if whole.len() == 0 || !digits_only(&whole, 0, whole.len()) {
        return None;
    }
    if point < mantissa.len() && fraction.len() == 0 {
        return None;
    }
    if !digits_only(&fraction, 0, fraction.len()) {
        return None;
    }
    let exponent = if mark < body.len() {
        slice_of(body, mark + 1, body.len())
    } else {
        Vec::new()
    };
    assert(exponent@ =~= exponent_part(body@));
    let signed = exponent.len() > 0 && (exponent[0] == '-' || exponent[0] == '+');
    let downward = exponent.len() > 0 && exponent[0] == '-';
    let power = if signed {
        body_of(&exponent)
    } else {
        exponent
    };
    assert(power@.subrange(0, power@.len() as int) =~= power@);
    if mark < body.len() && power.len() == 0 {
        return None;
    }
    if !digits_only(&power, 0, power.len()) {
        return None;
    }
    Some(NumeralParts { whole, fraction, power, downward })
}

/// The digits of `whole` and then those of `fraction`.
fn join_digits(whole: Vec<char>, fraction: &Vec<char>) -> (r: Vec<char>)
    requires
        all_digits(whole@),
        all_digits(fraction@),
    ensures
        r@ == whole@ + fraction@,
        all_digits(r@),
{
    let mut digits = whole;
    let ghost whole_digits = digits@;
    let mut i: usize = 0;
    while i < fraction.len()
        invariant
            i <= fraction.len(),
            digits@ == whole_digits + fraction@.take(i as int),
        decreases fraction.len() - i,
    {
        digits.push(fraction[i]);
        assert(fraction@.take(i + 1) =~= fraction@.take(i as int).push(fraction@[i as int]));
        assert(whole_digits + fraction@.take(i + 1) =~= (whole_digits + fraction@.take(i as int)).push(
            fraction@[i as int],
        ));
        i += 1;
    }
    proof {
        assert(fraction@.take(fraction@.len() as int) =~= fraction@);
        assert forall|j: int| 0 <= j < digits@.len() implies is_digit(#[trigger] digits@[j]) by {
            if j < whole_digits.len() {
                assert(digits@[j] == whole_digits[j]);
            } else {
                assert(digits@[j] == fraction@[j - whole_digits.len()]);
            }
        }
    }
    digits
}

/// How many digits to keep: `before_point` and three more, moved by the
/// exponent that `power` writes, downward or upward. A move beyond all
/// `length` digits is cut short where it makes no difference: to below
/// zero in the one direction, to twenty past the digits in the other.
fn kept_digits(before_point: usize, length: usize, power: &Vec<char>, downward: bool) -> (kept: i128)
    requires
        all_digits(power@),
        before_point <= length,
    ensures
        ({
            let shift = if downward {
                -(digits_value(power@) as int)
            } else {
                digits_value(power@) as int
            };
            let exact = before_point + 3 + shift;
            kept == exact || (kept == -1 && exact < 0) || (kept == length + 20 && exact >= length + 20)
        }),
{
    assert(power@.subrange(0, power@.len() as int) =~= power@);
    match digits_number(power, 0, power.len(), 1_000_000_000_000_000_000_000_000_000_000) {
        Some(shift) => if downward {
            before_point as i128 + 3 - shift as i128
        } else {
            before_point as i128 + 3 + shift as i128
        },
        None => if downward {
            -1
        } else {
            length as i128 + 20
        },
    }
}

/// The magnitude of an unsigned numeral in thousandths, held to
/// `DECIMAL_LIMIT`; nothing for a text that is no decimal numeral.
fn read_magnitude(body: &Vec<char>) -> (r: Option<u128>)
    ensures
        match r {
            Some(magnitude) => is_unsigned_decimal(body@) && magnitude <= DECIMAL_LIMIT && magnitude == (
            if magnitude_thousandths(body@) <= DECIMAL_LIMIT {
                magnitude_thousandths(body@) as int
            } else {
                DECIMAL_LIMIT as int
            }),
            None => !is_unsigned_decimal(body@),
        },
{
    match split_numeral(body) {
        None => None,
        Some(parts) => {
            let before_point = parts.whole.len();
            let digits = join_digits(parts.whole, &parts.fraction);
            assert(digits@ == significant_digits(body@));
            let kept = kept_digits(before_point, digits.len(), &parts.power, parts.downward);
            proof {
                let exact = point_position(body@) + 3;
                if kept != exact {
                    if kept == -1 {
                        assert(leading_value(digits@, exact) == 0);
                        assert(leading_value(digits@, -1) == 0);
                    } else {
                        lemma_rounded_alike_far(digits@, kept as int, exact);
                    }
                }
            }
            Some(rounded_magnitude(&digits, kept))
        },
    }
}

impl Decimal {
    /// Whether the value lies within `DECIMAL_LIMIT` on either side of zero.
    pub open spec fn in_range(self) -> bool {
        -DECIMAL_LIMIT <= self.thousandths <= DECIMAL_LIMIT
    }

    /// Zero.
    pub fn zero() -> (r: Decimal)
        ensures
            r.thousandths == 0,
    {
        Decimal { thousandths: 0 }
    }

    /// The whole number `n`.
    pub fn whole(n: u32) -> (r: Decimal)
        ensures
            r.thousandths == n * 1000,
            r.in_range(),
    {
        Decimal { thousandths: (n as i128) * 1000 }
    }

    /// The value without its sign, in thousandths.
    pub fn magnitude(&self) -> (m: u128)
        ensures
            m == magnitude(self.thousandths as int),
    {
        if self.thousandths < 0 {
            (-(self.thousandths + 1)) as u128 + 1
        } else {
            self.thousandths as u128
        }
    }

    /// Whether the value lies within `DECIMAL_LIMIT` on either side of zero.
    pub fn is_in_range(&self) -> (b: bool)
        ensures
            b == self.in_range(),
    {
        -DECIMAL_LIMIT <= self.thousandths && self.thousandths <= DECIMAL_LIMIT
    }

    /// Reads a decimal numeral, with or without an exponent, rounding to
    /// the nearest thousandth. A numeral beyond `DECIMAL_LIMIT` reads as
    /// the limit, with its sign. Any other text gives nothing.
    pub fn from_decimal(text: &str) -> (r: Option<Decimal>)
        ensures
            match r {
                Some(m) => decimal_thousandths(text@) == Some(m.thousandths as int) && m.in_range(),
                None => decimal_thousandths(text@) is None,
            },
    {
        let cs = chars_of(text);
        let negative = cs.len() > 0 && cs[0] == '-';
        let body: Vec<char> = if negative {
            body_of(&cs)
        } else {
            cs
        };
        assert(body@ == unsigned_part(text@));
        match read_magnitude(&body) {
            Some(magnitude) => {
                let value: i128 = if negative {
                    -(magnitude as i128)
                } else {
                    magnitude as i128
                };
                Some(Decimal { thousandths: value })
            },
            None => None,
        }
    }

    /// The value with one digit after the decimal point, rounded half away
    /// from zero.
    pub fn tenths_text(&self) -> (r: String)
        ensures
            r@ == tenths_numeral(self.thousandths as int),
    {
        let mut out = String::new();
        self.push_tenths(&mut out);
        out
    }

    /// Appends the value with one digit after the decimal point to `out`.
    pub fn push_tenths(&self, out: &mut String)
        ensures
            final(out)@ == old(out)@ + tenths_numeral(self.thousandths as int),
    {
        let tenths: u128 = (self.magnitude() + 50) / 100;
        let ghost before = out@;
        if self.thousandths < 0 && tenths > 0 {
            out.push('-');
        }
        let ghost signed = out@;
        push_decimal(out, tenths / 10);
        out.push('.');
        push_decimal(out, tenths % 10);
        proof {
            assert(decimal_digits((tenths % 10) as nat) =~= seq![digit_char((tenths % 10) as nat)]);
            let sign = if self.thousandths < 0 && tenths > 0 {
                seq!['-']
            } else {
                Seq::<char>::empty()
            };
            assert(signed =~= before + sign);
            assert(out@ =~= before + (sign + decimal_digits((tenths / 10) as nat).push('.').push(
                digit_char((tenths % 10) as nat),
            )));
        }
    }
}

/// The characters of `cs` after the first.
fn body_of(cs: &Vec<char>) -> (r: Vec<char>)
    requires
        cs.len() > 0,
    ensures
        r@ == cs@.skip(1),
{
    let mut out: Vec<char> = Vec::new();
    let mut i: usize = 1;
    while i < cs.len()
        invariant
            1 <= i <= cs.len(),
            out@ == cs@.subrange(1, i as int),
        decreases cs.len() - i,
    {
        out.push(cs[i]);
        i += 1;
    }
    proof {
        assert(cs@.subrange(1, cs.len() as int) =~= cs@.skip(1));
    }
    out
}

} // verus!
