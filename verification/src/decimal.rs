//! Amounts as decimal text, without loss.
//!
//! An amount is written as its whole part, a point, and four fractional
//! digits: `Amount(15_000)` is `1.5000`. Reading is more lenient than
//! writing: the point and the fractional digits may be missing, and
//! fractional digits beyond the fourth are dropped. Nothing but ASCII digits
//! and one point is accepted, so there is no way to write a negative amount.
use crate::payment::Amount;
use vstd::prelude::*;

verus! {

/// The byte that separates the whole part from the fraction.
pub const POINT: u8 = 46;

/// The byte of the digit zero; the other digits follow it.
pub const ZERO: u8 = 48;

/// How many units of an amount make one whole.
pub const SCALE: u64 = 10_000;

pub open spec fn is_digit(byte: u8) -> bool {
    ZERO <= byte <= ZERO + 9
}

/// What a digit counts; a byte that is no digit counts nothing.
pub open spec fn digit(byte: u8) -> nat {
    if is_digit(byte) {
        (byte - ZERO) as nat
    } else {
        0
    }
}

pub open spec fn all_digits(text: Seq<u8>) -> bool {
    forall|i: int| 0 <= i < text.len() ==> is_digit(#[trigger] text[i])
}

/// The number that a run of digits writes, most significant digit first.
pub open spec fn digits_value(digits: Seq<u8>) -> nat
    decreases digits.len(),
{
    if digits.len() == 0 {
        0
    } else {
        10 * digits_value(digits.drop_last()) + digit(digits.last())
    }
}

/// Where the first point at or after `start` stands; the length of `text`
/// if there is none.
pub open spec fn point_from(text: Seq<u8>, start: int) -> int
    decreases text.len() - start,
{
    if start < 0 || start >= text.len() || text[start] == POINT {
        start
    } else {
        point_from(text, start + 1)
    }
}

/// What the digit in place `place` after the point counts, where a missing
/// digit is a zero.
pub open spec fn fraction_digit(fraction: Seq<u8>, place: int) -> nat {
    if 0 <= place < fraction.len() {
        digit(fraction[place])
    } else {
        0
    }
}

/// The units that the digits after the point stand for: the first four
/// count, what follows them is dropped.
pub open spec fn fraction_units(fraction: Seq<u8>) -> nat {
    1000 * fraction_digit(fraction, 0) + 100 * fraction_digit(fraction, 1) + 10 * fraction_digit(
        fraction,
        2,
    ) + fraction_digit(fraction, 3)
}

/// The part of `text` before its first point.
pub open spec fn whole_part(text: Seq<u8>) -> Seq<u8> {
    text.take(point_from(text, 0))
}

/// The part of `text` after its first point; empty if it has no point.
pub open spec fn fraction_part(text: Seq<u8>) -> Seq<u8> {
    if point_from(text, 0) < text.len() {
        text.skip(point_from(text, 0) + 1)
    } else {
        Seq::empty()
    }
}

/// The units that `text` stands for, however many. The whole part must
/// have at least one digit, and both parts must hold digits only.
pub open spec fn decimal_units(text: Seq<u8>) -> Option<nat> {
    if whole_part(text).len() > 0 && all_digits(whole_part(text)) && all_digits(
        fraction_part(text),
    ) {
        Some((SCALE * digits_value(whole_part(text)) + fraction_units(fraction_part(text))) as nat)
    } else {
        None
    }
}

/// The amount that `text` stands for, if it stands for one that fits.
pub open spec fn decimal_amount(text: Seq<u8>) -> Option<Amount> {
    match decimal_units(text) {
        Some(units) if units <= u64::MAX => Some(Amount(units as u64)),
        _ => None,
    }
}

/// The digits of `n`, most significant first, without leading zeros; zero
/// is written as one digit.
pub open spec fn digits_of(n: nat) -> Seq<u8>
    decreases n,
{
    if n < 10 {
        seq![(ZERO + n) as u8]
    } else {
        digits_of(n / 10).push((ZERO + n % 10) as u8)
    }
}

/// How an amount of `units` is written: the whole part, a point, and
/// exactly four digits.
pub open spec fn decimal_text(units: u64) -> Seq<u8> {
    let fraction = (units % SCALE) as nat;
    digits_of((units / SCALE) as nat) + seq![
        POINT,
        (ZERO + fraction / 1000) as u8,
        (ZERO + fraction / 100 % 10) as u8,
        (ZERO + fraction / 10 % 10) as u8,
        (ZERO + fraction % 10) as u8,
    ]
}

proof fn lemma_point_from_bounds(text: Seq<u8>, start: int)
    requires
        0 <= start <= text.len(),
    ensures
        start <= point_from(text, start) <= text.len(),
    decreases text.len() - start,
{
    if start < text.len() && text[start] != POINT {
        lemma_point_from_bounds(text, start + 1);
    }
}

proof fn lemma_point_is_first(text: Seq<u8>, start: int, point: int)
    requires
        0 <= start <= point <= text.len(),
        forall|i: int| start <= i < point ==> text[i] != POINT,
        point == text.len() || text[point] == POINT,
    ensures
        point_from(text, start) == point,
    decreases point - start,
{
    if start < point {
        lemma_point_is_first(text, start + 1, point);
    }
}

proof fn lemma_value_grows_with_digits(digits: Seq<u8>, shorter: int)
    requires
        0 <= shorter <= digits.len(),
    ensures
        digits_value(digits.take(shorter)) <= digits_value(digits),
    decreases digits.len(),
{
    if shorter < digits.len() {
        assert(digits.drop_last().take(shorter) == digits.take(shorter));
        lemma_value_grows_with_digits(digits.drop_last(), shorter);
    } else {
        assert(digits.take(shorter) == digits);
    }
}

proof fn lemma_digits_of(n: nat)
    ensures
        digits_of(n).len() > 0,
        all_digits(digits_of(n)),
        digits_value(digits_of(n)) == n,
    decreases n,
{
    if n < 10 {
        assert(digits_value(digits_of(n).drop_last()) == 0);
    } else {
        lemma_digits_of(n / 10);
        assert(digits_of(n).drop_last() == digits_of(n / 10));
    }
}

proof fn lemma_four_places(fraction: nat)
    requires
        fraction < 10_000,
    ensures
        fraction / 1000 <= 9,
        1000 * (fraction / 1000) + 100 * (fraction / 100 % 10) + 10 * (fraction / 10 % 10)
            + fraction % 10 == fraction,
{
    let f = fraction as u32;
    assert(f < 10_000 ==> f / 1000 <= 9 && 1000 * (f / 1000) + 100 * (f / 100 % 10) + 10 * (f / 10
        % 10) + f % 10 == f) by (bit_vector);
}

/// Writing an amount and reading the text back gives the amount again:
/// nothing is lost on the way through decimal text.
pub proof fn lemma_decimal_round_trip(amount: Amount)
    ensures
        decimal_amount(decimal_text(amount.0)) == Some(amount),
{
    let whole = digits_of((amount.0 / SCALE) as nat);
    let fraction = (amount.0 % SCALE) as nat;
    let places = seq![
        POINT,
        (ZERO + fraction / 1000) as u8,
        (ZERO + fraction / 100 % 10) as u8,
        (ZERO + fraction / 10 % 10) as u8,
        (ZERO + fraction % 10) as u8,
    ];
    let text = whole + places;
    let split = whole.len() as int;
    lemma_digits_of((amount.0 / SCALE) as nat);
    lemma_four_places(fraction);
    lemma_point_is_first(text, 0, split);
    assert(whole_part(text) == whole);
    let after = fraction_part(text);
    assert(after[0] == places[1] && after[1] == places[2] && after[2] == places[3] && after[3]
        == places[4]);
}

impl Amount {
    /// Reads an amount from decimal text such as `12`, `12.` or `12.5`.
    /// `None` for text that is no decimal number, and for a number too
    /// large for an amount.
    pub fn from_decimal(text: &[u8]) -> (amount: Option<Amount>)
        ensures
            amount == decimal_amount(text@),
    {
        let length = text.len();
        let mut split: usize = 0;
        while split < length && text[split] != POINT
            invariant
                split <= length == text@.len(),
                point_from(text@, 0) == point_from(text@, split as int),
                all_digits(text@.take(split as int)),
            decreases length - split,
        {
            if text[split] < ZERO || text[split] > ZERO + 9 {
                proof {
                    lemma_point_from_bounds(text@, split + 1);
                    assert(whole_part(text@)[split as int] == text@[split as int]);
                }
                return None;
            }
            split += 1;
        }
        if split == 0 {
            return None;
        }
        let start: usize = if split < length {
            split + 1
        } else {
            length
        };
        let mut checked: usize = start;
        while checked < length
            invariant
                start <= checked <= length == text@.len(),
                fraction_part(text@) == text@.skip(start as int),
                forall|i: int| start <= i < checked ==> is_digit(#[trigger] text@[i]),
            decreases length - checked,
        {
            if text[checked] < ZERO || text[checked] > ZERO + 9 {
                assert(fraction_part(text@)[checked - start] == text@[checked as int]);
                return None;
            }
            checked += 1;
        }
        let mut whole: u64 = 0;
        let mut read: usize = 0;
        while read < split
            invariant
                read <= split <= length == text@.len(),
                0 < split,
                whole_part(text@) == text@.take(split as int),
                all_digits(whole_part(text@)),
                all_digits(fraction_part(text@)),
                whole == digits_value(text@.take(read as int)),
            decreases split - read,
        {
            proof {
                let longer = text@.take(read + 1);
                assert(longer.drop_last() == text@.take(read as int));
                lemma_value_grows_with_digits(text@.take(split as int), read + 1);
                assert(text@.take(split as int).take(read + 1) == longer);
            }
            let next = match whole.checked_mul(10) {
                Some(tens) => tens.checked_add((text[read] - ZERO) as u64),
                None => None,
            };
            match next {
                Some(value) => {
                    whole = value;
                },
                None => {
                    return None;
                },
            }
            read += 1;
        }
        let fraction: u64 = 1000 * place_value(text, start, 0) + 100 * place_value(text, start, 1)
            + 10 * place_value(text, start, 2) + place_value(text, start, 3);
        match whole.checked_mul(SCALE) {
            None => None,
            Some(scaled) => match scaled.checked_add(fraction) {
                None => None,
                Some(units) => Some(Amount(units)),
            },
        }
    }

    /// Writes the amount as decimal text with four fractional digits.
    pub fn to_decimal(&self) -> (text: Vec<u8>)
        ensures
            text@ == decimal_text(self.0),
    {
        let mut text: Vec<u8> = Vec::new();
        push_digits(&mut text, self.0 / SCALE);
        let fraction = self.0 % SCALE;
        text.push(POINT);
        text.push(ZERO + (fraction / 1000) as u8);
        text.push(ZERO + (fraction / 100 % 10) as u8);
        text.push(ZERO + (fraction / 10 % 10) as u8);
        text.push(ZERO + (fraction % 10) as u8);
        text
    }
}

/// What the digit in place `place` of the fraction counts, where the
/// fraction is what `text` holds from `start` on.
fn place_value(text: &[u8], start: usize, place: usize) -> (value: u64)
    requires
        start <= text@.len(),
        all_digits(text@.skip(start as int)),
    ensures
        value == fraction_digit(text@.skip(start as int), place as int),
        value <= 9,
{
    if place < text.len() - start {
        assert(text@.skip(start as int)[place as int] == text@[start + place]);
        (text[start + place] - ZERO) as u64
    } else {
        0
    }
}

/// Appends the digits of `n` to `text`.
fn push_digits(text: &mut Vec<u8>, n: u64)
    ensures
        final(text)@ == old(text)@ + digits_of(n as nat),
    decreases n,
{
    if n >= 10 {
        push_digits(text, n / 10);
    }
    text.push(ZERO + (n % 10) as u8);
}

} // verus!
