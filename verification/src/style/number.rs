//! Exact decimal numbers and their canonical text.

use vstd::prelude::*;
use vstd::utf8::*;

verus! {

/// An exact decimal number: `digits` divided by ten to the power `scale`,
/// negated when `negative` is set.
///
/// Several records denote the same number (`40` and `40.00`); they all
/// have the same text.
#[derive(Clone, Copy, Debug, PartialEq, Eq, Structural)]
pub struct Decimal {
    pub negative: bool,
    pub digits: u64,
    pub scale: u8,
}

/// Ten to the power `e`.
pub open spec fn pow10(e: nat) -> nat
    decreases e,
{
    if e == 0 {
        1
    } else {
        10 * pow10((e - 1) as nat)
    }
}

/// The character that writes the digit `d`.
pub open spec fn digit_char(d: nat) -> char
    recommends
        d < 10,
{
    if d == 0 {
        '0'
    } else if d == 1 {
        '1'
    } else if d == 2 {
        '2'
    } else if d == 3 {
        '3'
    } else if d == 4 {
        '4'
    } else if d == 5 {
        '5'
    } else if d == 6 {
        '6'
    } else if d == 7 {
        '7'
    } else if d == 8 {
        '8'
    } else {
        '9'
    }
}

/// Positional notation of a natural number, without leading zeros.
pub open spec fn natural_text(n: nat) -> Seq<char>
    decreases n,
{
    if n < 10 {
        seq![digit_char(n)]
    } else {
        natural_text(n / 10).push(digit_char(n % 10))
    }
}

/// The lowest `places` digits of `f`, most significant first, zeros kept.
pub open spec fn fraction_text(f: nat, places: nat) -> Seq<char>
    decreases places,
{
    if places == 0 {
        Seq::empty()
    } else {
        fraction_text(f / 10, (places - 1) as nat).push(digit_char(f % 10))
    }
}

/// Text of `digits / 10^scale`: the integer part, then, unless the
/// fraction is zero, a point and the fraction without trailing zeros.
pub open spec fn unsigned_text(digits: nat, scale: nat) -> Seq<char>
    decreases scale,
{
    if scale == 0 {
        natural_text(digits)
    } else if digits % 10 == 0 {
        unsigned_text(digits / 10, (scale - 1) as nat)
    } else {
        natural_text(digits / pow10(scale)) + seq!['.'] + fraction_text(
            digits % pow10(scale),
            scale,
        )
    }
}

/// The digit that a character writes, if it writes one.
pub open spec fn digit_of(c: char) -> Option<nat> {
    if '0' <= c && c <= '9' {
        Some((c as int - '0' as int) as nat)
    } else {
        None
    }
}

/// Whether a text consists of digits only.
pub open spec fn all_digits(text: Seq<char>) -> bool {
    forall|i: int| 0 <= i < text.len() ==> digit_of(#[trigger] text[i]) is Some
}

/// The number that a row of digits writes; leading zeros are allowed.
pub open spec fn digits_value(text: Seq<char>) -> nat
    decreases text.len(),
{
    if text.len() == 0 {
        0
    } else {
        10 * digits_value(text.drop_last()) + match digit_of(text.last()) {
            Some(d) => d,
            None => 0,
        }
    }
}

/// Whether `point` is the place of the first point in a text; the
/// length of the text stands for "no point".
pub open spec fn first_point(body: Seq<char>, point: int) -> bool {
    &&& 0 <= point <= body.len()
    &&& point < body.len() ==> body[point] == '.'
    &&& forall|i: int| 0 <= i < point ==> #[trigger] body[i] != '.'
}

/// The number that an unsigned text writes, given the place of its first
/// point: digits, then perhaps a point and more digits. There is none
/// where a part has no digit or holds anything else, where more than 255
/// digits follow the point, or where the digits without the point write
/// a number beyond 64 bits.
pub open spec fn read_unsigned(body: Seq<char>, point: int, negative: bool) -> Option<Decimal> {
    let whole = body.take(point);
    let part = if point < body.len() {
        body.skip(point + 1)
    } else {
        Seq::<char>::empty()
    };
    if whole.len() == 0 || !all_digits(whole) {
        None
    } else if point < body.len() && (part.len() == 0 || !all_digits(part)) {
        None
    } else if part.len() > 255 || digits_value(whole + part) > u64::MAX {
        None
    } else {
        Some(Decimal { negative, digits: digits_value(whole + part) as u64, scale: part.len() as u8 })
    }
}

/// The number that a text writes, given the place of the first point
/// after the sign: a minus sign or none, then an unsigned number.
pub open spec fn read_decimal(text: Seq<char>, point: int) -> Option<Decimal> {
    if text.len() > 0 && text[0] == '-' {
        read_unsigned(text.skip(1), point, true)
    } else {
        read_unsigned(text, point, false)
    }
}

/// The text after the sign, if there is one.
pub open spec fn unsigned_part(text: Seq<char>) -> Seq<char> {
    if text.len() > 0 && text[0] == '-' {
        text.skip(1)
    } else {
        text
    }
}

/// A row of digits writes at least what any of its beginnings writes.
pub proof fn lemma_digits_value_grows(text: Seq<char>, count: int)
    requires
        0 <= count <= text.len(),
    ensures
        digits_value(text.take(count)) <= digits_value(text),
    decreases text.len(),
{
    if count == text.len() {
        assert(text.take(count) =~= text);
    } else {
        lemma_digits_value_grows(text.drop_last(), count);
        assert(text.drop_last().take(count) =~= text.take(count));
    }
}

/// A text has one place for its first point.
pub proof fn lemma_first_point_unique(body: Seq<char>, point: int)
    requires
        first_point(body, point),
    ensures
        forall|other: int| first_point(body, other) ==> other == point,
{
}

/// A text that writes a number holds a sign, digits and points only, so
/// it is plain ASCII.
pub proof fn lemma_parsed_is_ascii(text: Seq<char>)
    requires
        !is_ascii_chars(text),
    ensures
        Decimal::parsed(text) is None,
{
    let body = unsigned_part(text);
    if exists|point: int| first_point(body, point) {
        let point = choose|point: int| first_point(body, point);
        let negative = text.len() > 0 && text[0] == '-';
        let shift: int = if negative { 1 } else { 0 };
        let bad = choose|i: int| 0 <= i < text.len() && !('\0' <= #[trigger] text[i] <= '\u{7f}');
        let at = bad - shift;
        assert(body[at] == text[bad]);
        let whole = body.take(point);
        if at < point {
            assert(whole[at] == body[at]);
            assert(digit_of(whole[at]) is None);
        } else {
            let part = body.skip(point + 1);
            assert(part[at - point - 1] == body[at]);
            assert(digit_of(part[at - point - 1]) is None);
        }
    }
}

/// The text of a natural number has at least one digit.
pub proof fn lemma_natural_text_nonempty(n: nat)
    ensures
        natural_text(n).len() > 0,
{
}

/// The text of a number is never empty.
pub proof fn lemma_unsigned_text_nonempty(digits: nat, scale: nat)
    ensures
        unsigned_text(digits, scale).len() > 0,
    decreases scale,
{
    if scale == 0 {
        lemma_natural_text_nonempty(digits);
    } else if digits % 10 == 0 {
        lemma_unsigned_text_nonempty(digits / 10, (scale - 1) as nat);
    } else {
        lemma_natural_text_nonempty(digits / pow10(scale));
    }
}

/// `pow10` grows with its exponent.
pub proof fn lemma_pow10_monotonic(a: nat, b: nat)
    requires
        a <= b,
    ensures
        0 < pow10(a) <= pow10(b),
    decreases b,
{
    if a < b {
        lemma_pow10_monotonic(a, (b - 1) as nat);
    } else if a > 0 {
        lemma_pow10_monotonic((a - 1) as nat, (b - 1) as nat);
    }
}

/// Ten to the nineteenth still fits in 64 bits; ten to the twentieth does not.
pub proof fn lemma_pow10_limits()
    ensures
        pow10(19) == 10_000_000_000_000_000_000,
        pow10(19) <= u64::MAX,
        pow10(20) > u64::MAX,
{
    reveal_with_fuel(pow10, 21);
}

fn digit_str(d: u64) -> (s: &'static str)
    requires
        d < 10,
    ensures
        s@ == seq![digit_char(d as nat)],
{
    proof {
        reveal_strlit("0");
        reveal_strlit("1");
        reveal_strlit("2");
        reveal_strlit("3");
        reveal_strlit("4");
        reveal_strlit("5");
        reveal_strlit("6");
        reveal_strlit("7");
        reveal_strlit("8");
        reveal_strlit("9");
    }
    let s = if d == 0 {
        "0"
    } else if d == 1 {
        "1"
    } else if d == 2 {
        "2"
    } else if d == 3 {
        "3"
    } else if d == 4 {
        "4"
    } else if d == 5 {
        "5"
    } else if d == 6 {
        "6"
    } else if d == 7 {
        "7"
    } else if d == 8 {
        "8"
    } else {
        "9"
    };
    assert(s@ =~= seq![digit_char(d as nat)]);
    s
}

pub fn natural_string(n: u64) -> (s: String)
    ensures
        s@ == natural_text(n as nat),
    decreases n,
{
    if n < 10 {
        String::from_str(digit_str(n))
    } else {
        let mut s = natural_string(n / 10);
        s.append(digit_str(n % 10));
        assert(s@ =~= natural_text(n as nat));
        s
    }
}

fn fraction_string(f: u64, places: u8) -> (s: String)
    ensures
        s@ == fraction_text(f as nat, places as nat),
    decreases places,
{
    if places == 0 {
        String::new()
    } else {
        let mut s = fraction_string(f / 10, places - 1);
        s.append(digit_str(f % 10));
        assert(s@ =~= fraction_text(f as nat, places as nat));
        s
    }
}

fn ten_to(e: u8) -> (p: u64)
    requires
        e <= 19,
    ensures
        p == pow10(e as nat),
{
    let mut p: u64 = 1;
    let mut i: u8 = 0;
    while i < e
        invariant
            i <= e <= 19,
            p == pow10(i as nat),
        decreases e - i,
    {
        proof {
            lemma_pow10_monotonic((i + 1) as nat, 19);
            lemma_pow10_limits();
        }
        p = p * 10;
        i = i + 1;
    }
    p
}

/// Reads the digits of `text` from `from` up to `to` onto the number
/// `start`, which the digits `before` write.
fn read_digits(text: &str, from: usize, to: usize, start: u64, Ghost(before): Ghost<Seq<char>>) -> (value:
    Option<u64>)
    requires
        text.is_ascii(),
        from <= to <= text@.len(),
        start == digits_value(before),
    ensures
        match value {
            Some(v) => all_digits(text@.subrange(from as int, to as int)) && v == digits_value(
                before + text@.subrange(from as int, to as int),
            ),
            None => !all_digits(text@.subrange(from as int, to as int)) || digits_value(
                before + text@.subrange(from as int, to as int),
            ) > u64::MAX,
        },
{
    let ghost range = text@.subrange(from as int, to as int);
    let mut value = start;
    let mut i = from;
    assert(before + range.take(0) =~= before);
    while i < to
        invariant
            text.is_ascii(),
            from <= i <= to <= text@.len(),
            range == text@.subrange(from as int, to as int),
            all_digits(range.take(i - from)),
            value == digits_value(before + range.take(i - from)),
        decreases to - i,
    {
        let byte = text.get_ascii(i);
        let ghost c = text@[i as int];
        let ghost longer = before + range.take(i - from + 1);
        proof {
            assert(range[i - from] == c);
            assert(longer.drop_last() =~= before + range.take(i - from));
            assert(longer.last() == c);
            assert('\0' <= c <= '\u{7f}');
            lemma_digits_value_grows(before + range, before.len() + (i - from + 1));
            assert((before + range).take(before.len() + (i - from + 1)) =~= longer);
        }
        if byte < 48 || byte > 57 {
            assert(digit_of(range[i - from]) is None);
            return None;
        }
        let digit: u64 = (byte - 48) as u64;
        assert(digit_of(c) == Some(digit as nat));
        let grown = match value.checked_mul(10) {
            Some(tenfold) => tenfold.checked_add(digit),
            None => None,
        };
        match grown {
            Some(v) => {
                value = v;
            },
            None => {
                return None;
            },
        }
        proof {
            assert forall|k: int| 0 <= k < i - from + 1 implies digit_of(
                #[trigger] range.take(i - from + 1)[k],
            ) is Some by {
                if k < i - from {
                    assert(range.take(i - from)[k] == range[k]);
                }
            }
        }
        i = i + 1;
    }
    assert(range.take(to - from) =~= range);
    Some(value)
}

/// The place of the first point at or after `from`, or the length of
/// the text where there is none.
fn find_point(text: &str, from: usize) -> (point: usize)
    requires
        text.is_ascii(),
        from <= text@.len(),
    ensures
        from <= point <= text@.len(),
        first_point(text@.skip(from as int), point - from),
{
    let length = text.unicode_len();
    let mut i = from;
    while i < length
        invariant
            text.is_ascii(),
            length == text@.len(),
            from <= i <= text@.len(),
            forall|k: int| from <= k < i ==> text@[k] != '.',
        decreases text@.len() - i,
    {
        let ghost c = text@[i as int];
        assert('\0' <= c <= '\u{7f}');
        if text.get_ascii(i) == 46 {
            assert(c == '.');
            return i;
        }
        i = i + 1;
    }
    i
}

impl Decimal {
    /// The canonical text: a minus sign for a negative number other than
    /// zero, then the digits.
    pub open spec fn text(self) -> Seq<char> {
        if self.negative && self.digits != 0 {
            seq!['-'] + unsigned_text(self.digits as nat, self.scale as nat)
        } else {
            unsigned_text(self.digits as nat, self.scale as nat)
        }
    }

    /// The whole number `value`.
    pub open spec fn of_integer(value: i64) -> Decimal {
        Decimal {
            negative: value < 0,
            digits: (if value < 0 { -(value as int) } else { value as int }) as u64,
            scale: 0,
        }
    }

    /// The number a hundred times as large, where its digits still fit.
    pub open spec fn hundredfold(self) -> Option<Decimal> {
        if self.scale >= 2 {
            Some(Decimal { negative: self.negative, digits: self.digits, scale: (self.scale - 2) as u8 })
        } else {
            let grown = self.digits * pow10((2 - self.scale) as nat);
            if grown <= u64::MAX {
                Some(Decimal { negative: self.negative, digits: grown as u64, scale: 0 })
            } else {
                None
            }
        }
    }

    /// The number that a text writes, if it writes one: a minus sign or
    /// none, digits, and perhaps a point and more digits.
    pub open spec fn parsed(text: Seq<char>) -> Option<Decimal> {
        if exists|point: int| first_point(unsigned_part(text), point) {
            read_decimal(text, choose|point: int| first_point(unsigned_part(text), point))
        } else {
            None
        }
    }

    /// Reads a number written in decimal notation, such as `-12.5`.
    pub fn parse(text: &str) -> (number: Option<Decimal>)
        ensures
            number == Decimal::parsed(text@),
    {
        let length = text.unicode_len();
        if !text.is_ascii() {
            proof {
                lemma_parsed_is_ascii(text@);
            }
            return None;
        }
        let negative = length > 0 && text.get_ascii(0) == 45;
        proof {
            if length > 0 {
                let c = text@[0];
                assert('\0' <= c <= '\u{7f}');
                assert(negative == (c == '-'));
            }
        }
        let start: usize = if negative { 1 } else { 0 };
        let ghost body = unsigned_part(text@);
        assert(body =~= text@.skip(start as int));
        let point = find_point(text, start);
        proof {
            lemma_first_point_unique(body, point - start);
            assert(body.take(point - start) =~= text@.subrange(start as int, point as int));
            if point < length {
                assert(body.skip(point - start + 1) =~= text@.subrange(point + 1, length as int));
            }
        }
        if point == start {
            return None;
        }
        let ghost whole = body.take(point - start);
        assert(Seq::<char>::empty() + whole =~= whole);
        let digits = match read_digits(text, start, point, 0, Ghost(Seq::empty())) {
            Some(digits) => digits,
            None => {
                proof {
                    if all_digits(whole) {
                        let part = if point < length {
                            body.skip(point - start + 1)
                        } else {
                            Seq::<char>::empty()
                        };
                        lemma_digits_value_grows(whole + part, whole.len() as int);
                        assert((whole + part).take(whole.len() as int) =~= whole);
                    }
                }
                return None;
            },
        };
        if point == length {
            assert(whole + Seq::<char>::empty() =~= whole);
            return Some(Decimal { negative, digits, scale: 0 });
        }
        let places = length - point - 1;
        if places == 0 || places > 255 {
            return None;
        }
        match read_digits(text, point + 1, length, digits, Ghost(whole)) {
            Some(digits) => Some(Decimal { negative, digits, scale: places as u8 }),
            None => None,
        }
    }

    /// The text of a number is never empty.
    pub proof fn lemma_text_nonempty(self)
        ensures
            self.text().len() > 0,
    {
        lemma_unsigned_text_nonempty(self.digits as nat, self.scale as nat);
    }

    pub fn new(negative: bool, digits: u64, scale: u8) -> (d: Decimal)
        ensures
            d == (Decimal { negative, digits, scale }),
    {
        Decimal { negative, digits, scale }
    }

    pub fn from_integer(value: i64) -> (d: Decimal)
        ensures
            d == Decimal::of_integer(value),
    {
        if value < 0 {
            let magnitude: u64 = if value == i64::MIN {
                9_223_372_036_854_775_808u64
            } else {
                (-value) as u64
            };
            Decimal { negative: true, digits: magnitude, scale: 0 }
        } else {
            Decimal { negative: false, digits: value as u64, scale: 0 }
        }
    }

    /// Moves the decimal point two places to the right.
    pub fn times_hundred(self) -> (r: Option<Decimal>)
        ensures
            r == self.hundredfold(),
    {
        proof {
            reveal_with_fuel(pow10, 3);
        }
        if self.scale >= 2 {
            Some(Decimal { negative: self.negative, digits: self.digits, scale: self.scale - 2 })
        } else {
            let factor: u64 = if self.scale == 1 { 10 } else { 100 };
            match self.digits.checked_mul(factor) {
                Some(grown) => Some(Decimal { negative: self.negative, digits: grown, scale: 0 }),
                None => None,
            }
        }
    }

    /// Writes the number out.
    pub fn render(self) -> (s: String)
        ensures
            s@ == self.text(),
    {
        let mut digits = self.digits;
        let mut scale = self.scale;
        while scale > 0 && digits % 10 == 0
            invariant
                unsigned_text(digits as nat, scale as nat) == unsigned_text(
                    self.digits as nat,
                    self.scale as nat,
                ),
                (digits == 0) == (self.digits == 0),
            decreases scale,
        {
            digits = digits / 10;
            scale = scale - 1;
        }
        let mut s = if self.negative && digits != 0 {
            String::from_str("-")
        } else {
            String::new()
        };
        proof {
            reveal_strlit("-");
            reveal_strlit(".");
            assert("-"@ =~= seq!['-']);
            assert("."@ =~= seq!['.']);
        }
        let ghost sign = s@;
        if scale == 0 {
            let whole = natural_string(digits);
            s.append(whole.as_str());
        } else {
            let (whole, part) = if scale <= 19 {
                let p = ten_to(scale);
                proof {
                    lemma_pow10_monotonic(0, scale as nat);
                }
                (digits / p, digits % p)
            } else {
                proof {
                    lemma_pow10_limits();
                    lemma_pow10_monotonic(20, scale as nat);
                    let p = pow10(scale as nat);
                    assert(digits as nat / p == 0 && digits as nat % p == digits) by (nonlinear_arith)
                        requires
                            (digits as nat) < p,
                    ;
                }
                (0, digits)
            };
            let whole_text = natural_string(whole);
            let part_text = fraction_string(part, scale);
            s.append(whole_text.as_str());
            s.append(".");
            s.append(part_text.as_str());
        }
        assert(s@ =~= sign + unsigned_text(digits as nat, scale as nat));
        assert(s@ =~= self.text());
        s
    }
}

} // verus!
