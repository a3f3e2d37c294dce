//! Decimal notation for integers and for exact decimal fractions.
use vstd::prelude::*;

verus! {

/// The character of the decimal digit `d`.
pub open spec fn digit(d: nat) -> char {
    (d + 48) as char
}

/// `n` in decimal notation, without leading zeros.
pub open spec fn decimal_text(n: nat) -> Seq<char>
    decreases n,
{
    if n < 10 {
        seq![digit(n)]
    } else {
        decimal_text(n / 10).push(digit(n % 10))
    }
}

/// `n` in decimal notation, with a minus sign where it is negative.
pub open spec fn signed_text(n: int) -> Seq<char> {
    if n < 0 {
        seq!['-'] + decimal_text((-n) as nat)
    } else {
        decimal_text(n as nat)
    }
}

/// `n` in decimal notation, with leading zeros up to `width` digits.
pub open spec fn padded_text(n: nat, width: nat) -> Seq<char> {
    let digits = decimal_text(n);
    if digits.len() < width {
        Seq::new((width - digits.len()) as nat, |i: int| '0') + digits
    } else {
        digits
    }
}

/// The number that a sequence of decimal digits denotes.
pub open spec fn digits_value(s: Seq<char>) -> nat
    decreases s.len(),
{
    if s.len() == 0 {
        0
    } else {
        digits_value(s.drop_last()) * 10 + (s.last() as nat - 48) as nat
    }
}

/// `n` in decimal notation.
pub fn decimal(n: u64) -> (r: String)
    ensures
        r@ == decimal_text(n as nat),
    decreases n,
{
    let mut text = if n < 10 {
        String::new()
    } else {
        decimal(n / 10)
    };
    let last: u8 = (n % 10) as u8;
    text.push((last + 48) as char);
    text
}

/// `n` in decimal notation, with a minus sign where it is negative.
pub fn signed(n: i32) -> (r: String)
    ensures
        r@ == signed_text(n as int),
{
    if n < 0 {
        let mut text = String::new();
        text.push('-');
        let size: u64 = (-(n as i64)) as u64;
        text.append(decimal(size).as_str());
        assert(text@ == signed_text(n as int));
        text
    } else {
        decimal(n as u64)
    }
}

/// `n` in decimal notation, with leading zeros up to `width` digits.
pub fn padded(n: u64, width: usize) -> (r: String)
    ensures
        r@ == padded_text(n as nat, width as nat),
{
    let digits = decimal(n);
    let len: usize = digits.as_str().unicode_len();
    let mut text = String::new();
    let mut zeros: usize = len;
    while zeros < width
        invariant
            len <= zeros,
            len < width ==> zeros <= width,
            len >= width ==> zeros == len,
            text@ == Seq::new((zeros - len) as nat, |i: int| '0'),
        decreases width - zeros,
    {
        text.push('0');
        zeros = zeros + 1;
        assert(text@ == Seq::new((zeros - len) as nat, |i: int| '0'));
    }
    text.append(digits.as_str());
    assert(text@ == padded_text(n as nat, width as nat));
    text
}

/// The exact decimal fraction `units / 10^scale`, such as `1.5` for 15 units
/// at scale 1.
#[derive(Clone, Copy, Debug, PartialEq, Eq, Structural)]
pub struct Decimal {
    pub units: u64,
    pub scale: u16,
}

/// `units / 10^scale` in decimal notation: the shortest such text, without a
/// point where the fraction is zero.
pub open spec fn fraction_text(units: nat, scale: nat) -> Seq<char>
    decreases scale,
{
    if scale == 0 {
        decimal_text(units)
    } else if units % 10 == 0 {
        fraction_text(units / 10, (scale - 1) as nat)
    } else {
        let digits = padded_text(units, scale + 1);
        let whole = digits.len() - scale;
        digits.take(whole) + seq!['.'] + digits.skip(whole)
    }
}

impl Decimal {
    /// The number in decimal notation.
    pub open spec fn spec_text(self) -> Seq<char> {
        fraction_text(self.units as nat, self.scale as nat)
    }

    pub fn new(units: u64, scale: u16) -> (r: Decimal)
        ensures
            r.units == units,
            r.scale == scale,
    {
        Decimal { units, scale }
    }

    /// The number in decimal notation: `1.5`, `0.4`, `1`.
    pub fn text(&self) -> (r: String)
        ensures
            r@ == self.spec_text(),
    {
        let mut units: u64 = self.units;
        let mut scale: u16 = self.scale;
        while scale > 0 && units % 10 == 0
            invariant
                fraction_text(units as nat, scale as nat) == self.spec_text(),
            decreases scale,
        {
            units = units / 10;
            scale = scale - 1;
        }
        if scale == 0 {
            decimal(units)
        } else {
            let places: usize = scale as usize;
            let digits = padded(units, places + 1);
            let len: usize = digits.as_str().unicode_len();
            let whole: usize = len - places;
            let mut text = String::new();
            text.append(digits.as_str().substring_char(0, whole));
            text.push('.');
            text.append(digits.as_str().substring_char(whole, len));
            assert(text@ == fraction_text(units as nat, scale as nat));
            text
        }
    }
}

/// The text of a number is never empty, and each of its characters is a digit.
pub proof fn lemma_decimal_digits(n: nat)
    ensures
        decimal_text(n).len() > 0,
        forall|i: int|
            0 <= i < decimal_text(n).len() ==> '0' <= #[trigger] decimal_text(n)[i] <= '9',
    decreases n,
{
    if n >= 10 {
        lemma_decimal_digits(n / 10);
    }
}

/// Decimal notation reads back as the number that was written.
pub proof fn law_decimal_reads_back(n: nat)
    ensures
        digits_value(decimal_text(n)) == n,
    decreases n,
{
    reveal_with_fuel(digits_value, 2);
    if n >= 10 {
        law_decimal_reads_back(n / 10);
        assert(decimal_text(n).drop_last() == decimal_text(n / 10));
    } else {
        assert(decimal_text(n).drop_last() == Seq::<char>::empty());
    }
}

/// Leading zeros denote nothing.
proof fn lemma_leading_zeros(zeros: nat, s: Seq<char>)
    ensures
        digits_value(Seq::new(zeros, |i: int| '0') + s) == digits_value(s),
    decreases zeros + s.len(),
{
    let padding = Seq::new(zeros, |i: int| '0');
    let all = padding + s;
    if s.len() > 0 {
        assert(all.drop_last() == padding + s.drop_last());
        lemma_leading_zeros(zeros, s.drop_last());
    } else if zeros > 0 {
        let fewer = Seq::new((zeros - 1) as nat, |i: int| '0');
        assert(all.drop_last() == fewer + s);
        lemma_leading_zeros((zeros - 1) as nat, s);
    }
}

/// Padded notation reads back as the number that was written.
pub proof fn law_padded_reads_back(n: nat, width: nat)
    ensures
        digits_value(padded_text(n, width)) == n,
{
    law_decimal_reads_back(n);
    let digits = decimal_text(n);
    if digits.len() < width {
        lemma_leading_zeros((width - digits.len()) as nat, digits);
    }
}

/// Padded notation of a number below 100 or below 1000 is two or three digits
/// wide.
pub proof fn lemma_padded_len(n: nat)
    ensures
        n < 100 ==> padded_text(n, 2).len() == 2,
        n < 1000 ==> padded_text(n, 3).len() == 3,
{
    reveal_with_fuel(decimal_text, 4);
}

/// Whether `text`, split at its point into `whole` and `part`, denotes
/// `units / 10^scale`. Without a point `part` is empty.
pub open spec fn denotes(
    text: Seq<char>,
    whole: Seq<char>,
    part: Seq<char>,
    units: nat,
    scale: nat,
) -> bool {
    &&& text == if part.len() == 0 {
        whole
    } else {
        whole + seq!['.'] + part
    }
    &&& whole.len() > 0
    &&& part.len() <= scale
    &&& digits_value(whole + part) * vstd::arithmetic::power::pow(
        10,
        (scale - part.len()) as nat,
    ) == units
}

/// The text of a decimal fraction denotes that fraction.
pub proof fn law_fraction_denotes(units: nat, scale: nat)
    ensures
        exists|whole: Seq<char>, part: Seq<char>|
            denotes(fraction_text(units, scale), whole, part, units, scale),
    decreases scale,
{
    let text = fraction_text(units, scale);
    if scale == 0 {
        lemma_decimal_digits(units);
        law_decimal_reads_back(units);
        vstd::arithmetic::power::lemma_pow0(10);
        let part = Seq::<char>::empty();
        assert(text + part =~= text);
        assert(denotes(text, text, part, units, scale));
    } else if units % 10 == 0 {
        let less = (scale - 1) as nat;
        let tenth = units / 10;
        law_fraction_denotes(tenth, less);
        let shorter = fraction_text(tenth, less);
        let (whole, part) = choose|whole: Seq<char>, part: Seq<char>|
            denotes(shorter, whole, part, tenth, less);
        let value = digits_value(whole + part) as int;
        let shift = (scale - part.len()) as nat;
        let power = vstd::arithmetic::power::pow(10, (shift - 1) as nat);
        assert(vstd::arithmetic::power::pow(10, shift) == 10 * power) by {
            reveal(vstd::arithmetic::power::pow);
        }
        assert(value * (10 * power) == 10 * (value * power)) by (nonlinear_arith);
        assert(denotes(text, whole, part, units, scale));
    } else {
        let digits = padded_text(units, scale + 1);
        let cut = digits.len() - scale;
        let whole = digits.take(cut);
        let part = digits.skip(cut);
        law_padded_reads_back(units, scale + 1);
        vstd::arithmetic::power::lemma_pow0(10);
        assert(whole + part =~= digits);
        assert(denotes(text, whole, part, units, scale));
    }
}

/// A trailing zero of the fraction changes nothing: `1.50` and `1.5` are
/// written alike.
pub proof fn law_fraction_trailing_zero(units: nat, scale: nat)
    ensures
        fraction_text(units * 10, scale + 1) == fraction_text(units, scale),
{
    assert((units * 10) % 10 == 0 && (units * 10) / 10 == units);
}

/// Whether `text` is the usual notation of `n`: decimal digits that denote it,
/// without a leading zero unless it is the only digit.
pub open spec fn writes(text: Seq<char>, n: nat) -> bool {
    &&& text.len() > 0
    &&& forall|i: int| 0 <= i < text.len() ==> '0' <= #[trigger] text[i] <= '9'
    &&& text.len() > 1 ==> text[0] != '0'
    &&& digits_value(text) == n
}

proof fn lemma_no_leading_zero(n: nat)
    ensures
        n > 0 ==> decimal_text(n)[0] != '0',
    decreases n,
{
    if n >= 10 {
        lemma_no_leading_zero(n / 10);
        lemma_decimal_digits(n / 10);
    }
}

/// Decimal notation is the usual one.
pub proof fn law_decimal_writes(n: nat)
    ensures
        writes(decimal_text(n), n),
{
    lemma_decimal_digits(n);
    lemma_no_leading_zero(n);
    law_decimal_reads_back(n);
    if n == 0 {
        assert(decimal_text(n).len() == 1);
    }
}

/// A number is written in the usual notation.
pub proof fn law_decimal(n: u64, text: String)
    requires
        call_ensures(decimal, (n,), text),
    ensures
        writes(text@, n as nat),
{
    law_decimal_writes(n as nat);
}

/// Whether `text` is the usual notation of `n`: a minus sign and its size where
/// it is negative.
pub open spec fn writes_signed(text: Seq<char>, n: int) -> bool {
    if n < 0 {
        text.len() > 0 && text[0] == '-' && writes(text.skip(1), (-n) as nat)
    } else {
        writes(text, n as nat)
    }
}

/// Signed notation is the usual one.
pub proof fn law_signed_writes(n: int)
    ensures
        writes_signed(signed_text(n), n),
{
    if n < 0 {
        law_decimal_writes((-n) as nat);
        assert(signed_text(n).skip(1) =~= decimal_text((-n) as nat));
    } else {
        law_decimal_writes(n as nat);
    }
}

/// A signed number is written in the usual notation.
pub proof fn law_signed(n: i32, text: String)
    requires
        call_ensures(signed, (n,), text),
    ensures
        writes_signed(text@, n as int),
{
    law_signed_writes(n as int);
}

/// Padded notation has at least the width asked for, denotes the number, and has
/// no more zeros in front than the width asks for.
pub proof fn law_padded(n: u64, width: usize, text: String)
    requires
        call_ensures(padded, (n, width), text),
    ensures
        text@.len() >= width,
        digits_value(text@) == n,
        forall|i: int| 0 <= i < text@.len() ==> '0' <= #[trigger] text@[i] <= '9',
        text@.len() > width ==> writes(text@, n as nat),
{
    law_padded_reads_back(n as nat, width as nat);
    law_decimal_writes(n as nat);
}

/// Whether `text` is the shortest notation of `units / 10^scale`: a whole number
/// where the fraction is zero, else a whole number, a point, and digits that do
/// not end in zero.
pub open spec fn shortest(text: Seq<char>, units: nat, scale: nat) -> bool {
    exists|whole: Seq<char>, part: Seq<char>|
        {
            &&& #[trigger] denotes(text, whole, part, units, scale)
            &&& part.len() > 0 ==> part.last() != '0'
            &&& forall|i: int| 0 <= i < whole.len() ==> '0' <= #[trigger] whole[i] <= '9'
            &&& forall|i: int| 0 <= i < part.len() ==> '0' <= #[trigger] part[i] <= '9'
            &&& whole.len() > 1 ==> whole[0] != '0'
        }
}

proof fn lemma_last_digit(n: nat)
    ensures
        decimal_text(n).last() == digit(n % 10),
{
}

/// The text of a decimal fraction is its shortest notation.
pub proof fn lemma_fraction_shortest(units: nat, scale: nat)
    ensures
        shortest(fraction_text(units, scale), units, scale),
    decreases scale,
{
    let text = fraction_text(units, scale);
    law_decimal_writes(units);
    if scale == 0 {
        vstd::arithmetic::power::lemma_pow0(10);
        let part = Seq::<char>::empty();
        assert(text + part =~= text);
        assert(denotes(text, text, part, units, scale));
    } else if units % 10 == 0 {
        let less = (scale - 1) as nat;
        let tenth = units / 10;
        lemma_fraction_shortest(tenth, less);
        let shorter = fraction_text(tenth, less);
        let (whole, part) = choose|whole: Seq<char>, part: Seq<char>|
            {
                &&& #[trigger] denotes(shorter, whole, part, tenth, less)
                &&& part.len() > 0 ==> part.last() != '0'
                &&& forall|i: int| 0 <= i < whole.len() ==> '0' <= #[trigger] whole[i] <= '9'
                &&& forall|i: int| 0 <= i < part.len() ==> '0' <= #[trigger] part[i] <= '9'
                &&& whole.len() > 1 ==> whole[0] != '0'
            };
        let value = digits_value(whole + part) as int;
        let shift = (scale - part.len()) as nat;
        let power = vstd::arithmetic::power::pow(10, (shift - 1) as nat);
        assert(vstd::arithmetic::power::pow(10, shift) == 10 * power) by {
            reveal(vstd::arithmetic::power::pow);
        }
        assert(value * (10 * power) == 10 * (value * power)) by (nonlinear_arith);
        assert(denotes(text, whole, part, units, scale));
    } else {
        let digits = padded_text(units, scale + 1);
        let cut = digits.len() - scale;
        let whole = digits.take(cut);
        let part = digits.skip(cut);
        law_padded_reads_back(units, scale + 1);
        vstd::arithmetic::power::lemma_pow0(10);
        lemma_last_digit(units);
        assert(whole + part =~= digits);
        assert(part.last() == digits.last());
        assert(digits.last() == decimal_text(units).last());
        assert(denotes(text, whole, part, units, scale));
    }
}

/// A decimal fraction is written in its shortest notation.
pub proof fn law_fraction_text(value: &Decimal, text: String)
    requires
        call_ensures(Decimal::text, (value,), text),
    ensures
        shortest(text@, value.units as nat, value.scale as nat),
{
    lemma_fraction_shortest(value.units as nat, value.scale as nat);
}

} // verus!
