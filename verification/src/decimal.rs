use crate::numeral::{all_digits, digit_value, digits_value, is_digit, literal_digits};
use crate::text::{DIGIT_0, DIGIT_9, PLUS, POINT};
use vstd::arithmetic::div_mod::lemma_fundamental_div_mod_converse;
use vstd::prelude::*;
use vstd::utf8::*;

verus! {

/// How many units a whole is held in: a decimal number is kept in billionths.
pub const UNITS_PER_ONE: u32 = 1_000_000_000;

/// The power of ten with exponent `n`.
pub open spec fn pow10(n: nat) -> nat
    decreases n,
{
    if n == 0 {
        1
    } else {
        10 * pow10((n - 1) as nat)
    }
}

/// The first position of `s` that holds `c`, or the length of `s` if none
/// does.
pub open spec fn position_of(s: Seq<char>, c: char) -> int
    decreases s.len(),
{
    if s.len() == 0 || s[0] == c {
        0
    } else {
        1 + position_of(s.drop_first(), c)
    }
}

/// The digits before the decimal point of the unsigned text `body`.
pub open spec fn whole_digits(body: Seq<char>) -> Seq<char> {
    body.take(position_of(body, '.'))
}

/// The digits behind the decimal point of the unsigned text `body`; none if
/// it has no point.
pub open spec fn fraction_digits(body: Seq<char>) -> Seq<char> {
    if position_of(body, '.') < body.len() {
        body.skip(position_of(body, '.') + 1)
    } else {
        Seq::empty()
    }
}

/// Whether `s` is an unsigned decimal literal: an optional plus sign, then
/// digits with at most one decimal point among them, before them or behind
/// them, and at least one digit in all.
pub open spec fn is_decimal_literal(s: Seq<char>) -> bool {
    let body = literal_digits(s);
    &&& all_digits(whole_digits(body))
    &&& all_digits(fraction_digits(body))
    &&& whole_digits(body).len() + fraction_digits(body).len() > 0
}

/// The number that the digits of the literal `s` denote when the decimal
/// point is left out.
pub open spec fn decimal_numerator(s: Seq<char>) -> nat {
    let body = literal_digits(s);
    digits_value(whole_digits(body) + fraction_digits(body))
}

/// The number of digits behind the decimal point of the literal `s`. The
/// literal denotes `decimal_numerator(s) / pow10(decimal_scale(s))`.
pub open spec fn decimal_scale(s: Seq<char>) -> nat {
    fraction_digits(literal_digits(s)).len()
}

/// Whether the literal `s` denotes at most one `parts`-th: at most 1 for one
/// part, at most a half for two.
pub open spec fn decimal_at_most(s: Seq<char>, parts: nat) -> bool {
    parts * decimal_numerator(s) <= pow10(decimal_scale(s))
}

/// The number that the literal `s` denotes, in billionths, rounded down.
pub open spec fn decimal_billionths(s: Seq<char>) -> nat {
    decimal_numerator(s) * 1_000_000_000 / pow10(decimal_scale(s))
}

/// The powers of ten are positive, and their exponents add up.
pub proof fn lemma_pow10(a: nat, b: nat)
    ensures
        pow10(a) > 0,
        pow10(a + b) == pow10(a) * pow10(b),
    decreases a,
{
    if a == 0 {
        assert(pow10(0 + b) == 1 * pow10(b));
    } else {
        lemma_pow10((a - 1) as nat, b);
        assert(pow10(a + b) == 10 * pow10((a - 1 + b) as nat));
        assert(10 * (pow10((a - 1) as nat) * pow10(b)) == (10 * pow10((a - 1) as nat)) * pow10(b))
            by (nonlinear_arith);
    }
}

/// The ninth power of ten is a billion.
pub proof fn lemma_pow10_nine()
    ensures
        pow10(9) == 1_000_000_000,
{
    reveal_with_fuel(pow10, 10);
}

/// Where `i` is the first position that holds `c`, or the length where none
/// does, `position_of` is `i`.
pub proof fn lemma_position_of(s: Seq<char>, c: char, i: int)
    requires
        0 <= i <= s.len(),
        forall|j: int| 0 <= j < i ==> s[j] != c,
        i < s.len() ==> s[i] == c,
    ensures
        position_of(s, c) == i,
    decreases s.len(),
{
    if i > 0 {
        let rest = s.drop_first();
        assert forall|j: int| 0 <= j < i - 1 implies rest[j] != c by {
            assert(rest[j] == s[j + 1]);
        }
        lemma_position_of(rest, c, i - 1);
    }
}

/// `position_of` is a position of `s` or its length; no earlier position
/// holds `c`, and that position does if it is one.
pub proof fn lemma_position_of_is_first(s: Seq<char>, c: char)
    ensures
        0 <= position_of(s, c) <= s.len(),
        forall|j: int| 0 <= j < position_of(s, c) ==> s[j] != c,
        position_of(s, c) < s.len() ==> s[position_of(s, c)] == c,
    decreases s.len(),
{
    if s.len() == 0 || s[0] == c {
    } else {
        let rest = s.drop_first();
        lemma_position_of_is_first(rest, c);
        assert forall|j: int| 0 <= j < position_of(s, c) implies s[j] != c by {
            if j > 0 {
                assert(rest[j - 1] == s[j]);
            }
        }
    }
}

/// A run of digits followed by another denotes the first number, shifted by
/// the length of the second run, plus the second number.
pub proof fn lemma_digits_value_concat(a: Seq<char>, b: Seq<char>)
    ensures
        digits_value(a + b) == digits_value(a) * pow10(b.len()) + digits_value(b),
    decreases b.len(),
{
    if b.len() == 0 {
        assert(a + b =~= a);
        assert(pow10(0) == 1);
        assert(digits_value(a) * 1 == digits_value(a));
    } else {
        let init = b.drop_last();
        assert((a + b).drop_last() =~= a + init);
        assert((a + b).last() == b.last());
        lemma_digits_value_concat(a, init);
        let x = digits_value(a) as int;
        let p = pow10(init.len()) as int;
        let y = digits_value(init) as int;
        let d = digit_value(b.last()) as int;
        assert(pow10(b.len()) == 10 * p);
        assert(digits_value(a + b) == (x * p + y) * 10 + d);
        assert(digits_value(b) == y * 10 + d);
        assert((x * p + y) * 10 + d == x * (10 * p) + (y * 10 + d)) by (nonlinear_arith);
    }
}

/// A literal that denotes at most 1 denotes at most a billion billionths,
/// and one that denotes at most a half denotes at most half a billion.
pub proof fn lemma_billionths_bound(s: Seq<char>, parts: nat)
    requires
        parts == 1 || parts == 2,
        decimal_at_most(s, parts),
    ensures
        parts * decimal_billionths(s) <= 1_000_000_000,
{
    let x = decimal_numerator(s) as int;
    let n = x * 1_000_000_000;
    let p = pow10(decimal_scale(s)) as int;
    lemma_pow10(decimal_scale(s), 0);
    let q = n / p;
    vstd::arithmetic::div_mod::lemma_fundamental_div_mod(n, p);
    vstd::arithmetic::div_mod::lemma_mod_bound(n, p);
    assert(parts * q <= 1_000_000_000) by (nonlinear_arith)
        requires
            n == p * q + n % p,
            0 <= n % p < p,
            n == x * 1_000_000_000,
            parts * x <= p,
            p > 0,
            parts == 1 || parts == 2,
    ;
}

/// A decimal literal holds digits, at most one point and, in front, at most
/// one plus sign: so it holds no `c` that is none of these.
pub proof fn lemma_decimal_literal_chars(s: Seq<char>, c: char)
    requires
        is_decimal_literal(s),
        !is_digit(c),
        c != '.',
        c != '+',
    ensures
        !s.contains(c),
{
    let body = literal_digits(s);
    lemma_position_of_is_first(body, '.');
    let p = position_of(body, '.');
    assert forall|j: int| 0 <= j < body.len() implies body[j] != c by {
        if j < p {
            assert(whole_digits(body)[j] == body[j]);
        } else if j > p {
            assert(fraction_digits(body)[j - p - 1] == body[j]);
        }
    }
    assert forall|i: int| 0 <= i < s.len() implies s[i] != c by {
        if s[0] == '+' {
            if i > 0 {
                assert(body[i - 1] == s[i]);
            }
        } else {
            assert(body[i] == s[i]);
        }
    }
}

/// Whether `bytes` holds the ASCII text `text`, one byte for each character.
pub open spec fn holds_ascii(bytes: Seq<u8>, text: Seq<char>) -> bool {
    &&& is_ascii_chars(text)
    &&& bytes == Seq::new(text.len(), |i: int| text[i] as u8)
}

/// What was read of a decimal literal: its value in billionths, rounded down
/// and held to at most two wholes, and whether nothing was lost in rounding.
pub(crate) struct Reading {
    pub units: u32,
    pub exact: bool,
}

impl Reading {
    /// Whether this is what reading the literal `s` gives.
    pub(crate) open spec fn reads(&self, s: Seq<char>) -> bool {
        &&& self.units == if decimal_billionths(s) < 2_000_000_000 {
            decimal_billionths(s)
        } else {
            2_000_000_000
        }
        &&& self.units < 2_000_000_000 ==> (self.exact <==> self.units * pow10(decimal_scale(s))
            == decimal_numerator(s) * 1_000_000_000)
    }

    /// Whether what was read is at most `bound` billionths.
    pub(crate) open spec fn within(&self, bound: nat) -> bool {
        self.units < bound || (self.units == bound && self.exact)
    }

    /// Whether what was read is at most `bound` billionths.
    pub(crate) fn is_within(&self, bound: u32) -> (r: bool)
        ensures
            r == self.within(bound as nat),
    {
        self.units < bound || (self.units == bound && self.exact)
    }
}

/// What was read decides whether the literal denotes at most 1, or at most a
/// half.
pub(crate) proof fn lemma_reading_at_most(m: Reading, s: Seq<char>, parts: nat)
    requires
        m.reads(s),
        parts == 1 || parts == 2,
    ensures
        decimal_at_most(s, parts) <==> m.within(1_000_000_000nat / parts),
{
    let n = decimal_numerator(s) as int * 1_000_000_000;
    let p = pow10(decimal_scale(s)) as int;
    lemma_pow10(decimal_scale(s), 0);
    let q = n / p;
    let r = n % p;
    vstd::arithmetic::div_mod::lemma_fundamental_div_mod(n, p);
    vstd::arithmetic::div_mod::lemma_mod_bound(n, p);
    assert(n == p * q + r);
    assert(0 <= r < p);
    let x = decimal_numerator(s) as int;
    assert(parts * n == (parts * x) * 1_000_000_000) by (nonlinear_arith)
        requires
            n == x * 1_000_000_000,
    ;
    assert((parts * x <= p) <==> (parts * n <= 1_000_000_000 * p)) by (nonlinear_arith)
        requires
            parts * n == (parts * x) * 1_000_000_000,
    ;
    if parts == 1 {
        assert((n <= 1_000_000_000 * p) <==> (q < 1_000_000_000 || (q == 1_000_000_000 && r == 0)))
            by (nonlinear_arith)
            requires
                n == p * q + r,
                0 <= r < p,
        ;
    } else {
        assert((2 * n <= 1_000_000_000 * p) <==> (q < 500_000_000 || (q == 500_000_000 && r == 0)))
            by (nonlinear_arith)
            requires
                n == p * q + r,
                0 <= r < p,
        ;
    }
    assert(q * p == p * q) by (nonlinear_arith);
}

/// The end of the run of digits that begins at `from`.
fn scan_digits(bytes: &[u8], from: usize, to: usize, Ghost(text): Ghost<Seq<char>>) -> (stop: usize)
    requires
        holds_ascii(bytes@, text),
        from <= to <= bytes@.len(),
    ensures
        from <= stop <= to,
        all_digits(text.subrange(from as int, stop as int)),
        stop < to ==> !is_digit(text[stop as int]),
{
    let mut i: usize = from;
    while i < to
        invariant
            holds_ascii(bytes@, text),
            from <= i <= to <= bytes@.len(),
            all_digits(text.subrange(from as int, i as int)),
        ensures
            from <= i <= to,
            all_digits(text.subrange(from as int, i as int)),
            i < to ==> !is_digit(text[i as int]),
        decreases to - i,
    {
        let b = bytes[i];
        if b < DIGIT_0 || b > DIGIT_9 {
            break ;
        }
        proof {
            let next = text.subrange(from as int, i + 1);
            assert forall|j: int| 0 <= j < next.len() implies is_digit(#[trigger] next[j]) by {
                if j < i - from {
                    assert(next[j] == text.subrange(from as int, i as int)[j]);
                }
            }
        }
        i += 1;
    }
    i
}

/// The number that the digits from `from` to `to` denote, held to at most 2.
fn read_whole(bytes: &[u8], from: usize, to: usize, Ghost(text): Ghost<Seq<char>>) -> (r: u32)
    requires
        holds_ascii(bytes@, text),
        from <= to <= bytes@.len(),
        all_digits(text.subrange(from as int, to as int)),
    ensures
        r == if digits_value(text.subrange(from as int, to as int)) < 2 {
            digits_value(text.subrange(from as int, to as int))
        } else {
            2
        },
{
    let ghost run = text.subrange(from as int, to as int);
    let mut i: usize = from;
    let mut whole: u32 = 0;
    while i < to
        invariant
            holds_ascii(bytes@, text),
            from <= i <= to <= bytes@.len(),
            run == text.subrange(from as int, to as int),
            all_digits(run),
            whole <= 2,
            whole == if digits_value(run.take(i - from)) < 2 {
                digits_value(run.take(i - from))
            } else {
                2
            },
        decreases to - i,
    {
        let b = bytes[i];
        proof {
            let k = i - from;
            assert(is_digit(run[k]));
            assert(run.take(k + 1).drop_last() =~= run.take(k));
            assert(run.take(k + 1).last() == run[k]);
        }
        let next: u32 = whole * 10 + (b - DIGIT_0) as u32;
        whole = if next < 2 {
            next
        } else {
            2
        };
        i += 1;
    }
    assert(run.take(to - from) =~= run);
    whole
}

/// The billionths that the digits from `from` to `to` denote when they stand
/// behind a decimal point, rounded down, and whether they denote exactly
/// that.
fn read_fraction(bytes: &[u8], from: usize, to: usize, Ghost(text): Ghost<Seq<char>>) -> (r: (
    u32,
    bool,
))
    requires
        holds_ascii(bytes@, text),
        from <= to <= bytes@.len(),
        all_digits(text.subrange(from as int, to as int)),
    ensures
        r.0 < 1_000_000_000,
        ({
            let run = text.subrange(from as int, to as int);
            let rest = digits_value(run) * 1_000_000_000 - r.0 * pow10(run.len());
            &&& 0 <= rest < pow10(run.len())
            &&& r.1 <==> rest == 0
        }),
{
    let ghost run = text.subrange(from as int, to as int);
    let mut i: usize = from;
    let mut units: u64 = 0;
    let mut count: u32 = 0;
    while i < to && count < 9
        invariant
            holds_ascii(bytes@, text),
            from <= i <= to <= bytes@.len(),
            run == text.subrange(from as int, to as int),
            all_digits(run),
            count <= 9,
            count == i - from,
            units == digits_value(run.take(i - from)),
            units < pow10(count as nat),
            pow10(count as nat) <= 1_000_000_000,
        decreases to - i,
    {
        let b = bytes[i];
        proof {
            let k = i - from;
            assert(is_digit(run[k]));
            assert(run.take(k + 1).drop_last() =~= run.take(k));
            assert(run.take(k + 1).last() == run[k]);
            lemma_pow10_nine();
            lemma_pow10((count + 1) as nat, (8 - count) as nat);
            lemma_pow10((8 - count) as nat, 0);
            assert(pow10((count + 1) as nat) <= 1_000_000_000) by (nonlinear_arith)
                requires
                    pow10((count + 1) as nat) * pow10((8 - count) as nat) == 1_000_000_000,
                    pow10((8 - count) as nat) > 0,
            ;
        }
        units = units * 10 + (b - DIGIT_0) as u64;
        count += 1;
        i += 1;
    }
    if i == to {
        // Every digit was taken: shift the number up to nine digits.
        let mut shift: u32 = count;
        assert(run.take(to - from) =~= run);
        let ghost value = digits_value(run);
        assert(units == value);
        assert(pow10((shift - count) as nat) == 1);
        assert(value * pow10((shift - count) as nat) == value) by (nonlinear_arith)
            requires
                pow10((shift - count) as nat) == 1,
        ;
        while shift < 9
            invariant
                count <= shift <= 9,
                units == value * pow10((shift - count) as nat),
                units < pow10(shift as nat),
                pow10(shift as nat) <= 1_000_000_000,
                value < pow10(count as nat),
            decreases 9 - shift,
        {
            proof {
                lemma_pow10_nine();
                lemma_pow10((shift + 1) as nat, (8 - shift) as nat);
                lemma_pow10((8 - shift) as nat, 0);
                assert(pow10((shift + 1) as nat) <= 1_000_000_000) by (nonlinear_arith)
                    requires
                        pow10((shift + 1) as nat) * pow10((8 - shift) as nat) == 1_000_000_000,
                        pow10((8 - shift) as nat) > 0,
                ;
                assert(value * pow10((shift - count) as nat) * 10 == value * (10 * pow10(
                    (shift - count) as nat,
                ))) by (nonlinear_arith);
            }
            units = units * 10;
            shift += 1;
        }
        proof {
            lemma_pow10_nine();
            lemma_pow10((9 - count) as nat, count as nat);
            let e = pow10((9 - count) as nat) as int;
            let p = pow10(count as nat) as int;
            assert(value * (e * p) == (value * e) * p) by (nonlinear_arith);
            assert(run.len() == count);
        }
        (units as u32, true)
    } else {
        // Nine digits were taken: the rest only tells whether anything is lost.
        let ghost head = units as nat;
        let ghost lost: nat = 0;
        let ghost weight: nat = 1;
        let mut exact = true;
        proof {
            lemma_pow10_nine();
            assert(pow10(0) == 1);
        }
        while i < to
            invariant
                holds_ascii(bytes@, text),
                from + 9 <= i <= to <= bytes@.len(),
                run == text.subrange(from as int, to as int),
                all_digits(run),
                head == units,
                head < 1_000_000_000,
                weight == pow10((i - from - 9) as nat),
                digits_value(run.take(i - from)) == head * weight + lost,
                lost < weight,
                exact <==> lost == 0,
            decreases to - i,
        {
            let b = bytes[i];
            proof {
                let k = i - from;
                assert(is_digit(run[k]));
                assert(run.take(k + 1).drop_last() =~= run.take(k));
                assert(run.take(k + 1).last() == run[k]);
                let d = digit_value(run[k]);
                assert((head * weight + lost) * 10 + d == head * (10 * weight) + (10 * lost + d))
                    by (nonlinear_arith);
                lost = 10 * lost + d;
                weight = 10 * weight;
            }
            if b != DIGIT_0 {
                exact = false;
            }
            i += 1;
        }
        proof {
            assert(run.take(to - from) =~= run);
            let k = run.len();
            lemma_pow10(9, (k - 9) as nat);
            let value = digits_value(run) as int;
            let h = head as int;
            let w = weight as int;
            let l = lost as int;
            assert(pow10(k) == 1_000_000_000 * w);
            assert(value * 1_000_000_000 - h * (1_000_000_000 * w) == l * 1_000_000_000)
                by (nonlinear_arith)
                requires
                    value == h * w + l,
            ;
            assert(l * 1_000_000_000 < 1_000_000_000 * w) by (nonlinear_arith)
                requires
                    l < w,
            ;
        }
        (units as u32, exact)
    }
}

/// Reads the characters of `text` from `from` to `to` as an unsigned decimal
/// literal.
pub(crate) fn read_decimal(bytes: &[u8], from: usize, to: usize, Ghost(text): Ghost<Seq<char>>) -> (r:
    Option<Reading>)
    requires
        holds_ascii(bytes@, text),
        from <= to <= bytes@.len(),
    ensures
        match r {
            Some(m) => is_decimal_literal(text.subrange(from as int, to as int)) && m.reads(
                text.subrange(from as int, to as int),
            ),
            None => !is_decimal_literal(text.subrange(from as int, to as int)),
        },
{
    let ghost s = text.subrange(from as int, to as int);
    let start: usize = if from < to && bytes[from] == PLUS {
        from + 1
    } else {
        from
    };
    let ghost body = literal_digits(s);
    assert(body =~= text.subrange(start as int, to as int));
    let point = scan_digits(bytes, start, to, Ghost(text));
    let ghost whole = text.subrange(start as int, point as int);
    if point < to && bytes[point] != POINT {
        proof {
            lemma_position_of_is_first(body, '.');
            let p = position_of(body, '.');
            let k = point - start;
            assert(body[k] == text[point as int]);
            assert(body[k] != '.');
            if p <= k {
                if p < k {
                    assert(whole[p] == body[p]);
                    assert(is_digit(whole[p]));
                }
            }
            assert(p > k);
            assert(whole_digits(body)[k] == body[k]);
        }
        return None;
    }
    let begin: usize = if point < to {
        point + 1
    } else {
        to
    };
    let ghost fraction = text.subrange(begin as int, to as int);
    proof {
        assert forall|j: int| 0 <= j < point - start implies body[j] != '.' by {
            assert(whole[j] == body[j]);
            assert(is_digit(whole[j]));
        }
        if point < to {
            assert(body[point - start] == text[point as int]);
        }
        lemma_position_of(body, '.', point - start);
        assert(whole_digits(body) =~= whole);
        assert(fraction_digits(body) =~= fraction);
    }
    let end = scan_digits(bytes, begin, to, Ghost(text));
    if end < to {
        proof {
            assert(fraction[end - begin] == text[end as int]);
        }
        return None;
    }
    if point - start + (to - begin) == 0 {
        return None;
    }
    let ones = read_whole(bytes, start, point, Ghost(text));
    let (units, exact) = read_fraction(bytes, begin, to, Ghost(text));
    proof {
        lemma_digits_value_concat(whole, fraction);
        lemma_pow10(fraction.len(), 0);
        let w = digits_value(whole) as int;
        let f = digits_value(fraction) as int;
        let p = pow10(fraction.len()) as int;
        let u = units as int;
        let rest = f * 1_000_000_000 - u * p;
        let n = decimal_numerator(s) as int * 1_000_000_000;
        assert(decimal_numerator(s) == w * p + f);
        assert(n == (w * 1_000_000_000 + u) * p + rest) by (nonlinear_arith)
            requires
                n == (w * p + f) * 1_000_000_000,
                rest == f * 1_000_000_000 - u * p,
        ;
        lemma_fundamental_div_mod_converse(n, p, w * 1_000_000_000 + u, rest);
        assert(decimal_billionths(s) == w * 1_000_000_000 + u);
        assert((w * 1_000_000_000 + u) * p == n <==> rest == 0);
    }
    if ones >= 2 {
        Some(Reading { units: 2_000_000_000, exact: false })
    } else {
        Some(Reading { units: ones * UNITS_PER_ONE + units, exact })
    }
}

/// A text with a character outside ASCII is no decimal literal.
pub proof fn lemma_decimal_literal_is_ascii(s: Seq<char>)
    requires
        !is_ascii_chars(s),
    ensures
        !is_decimal_literal(s),
{
    let i = choose|i: int| 0 <= i < s.len() && !('\0' <= #[trigger] s[i] <= '\u{7f}');
    let body = literal_digits(s);
    let j = if s[0] == '+' {
        i - 1
    } else {
        i
    };
    assert(body[j] == s[i]);
    lemma_position_of_is_first(body, '.');
    let p = position_of(body, '.');
    if j < p {
        assert(whole_digits(body)[j] == body[j]);
    } else {
        assert(j > p);
        assert(fraction_digits(body)[j - p - 1] == body[j]);
    }
}

/// The first position from `from` on that holds the byte `c`, or `to` if
/// none before `to` does.
pub(crate) fn find_byte(bytes: &[u8], from: usize, to: usize, c: u8, Ghost(text): Ghost<Seq<char>>) -> (stop:
    usize)
    requires
        holds_ascii(bytes@, text),
        from <= to <= bytes@.len(),
        c < 128,
    ensures
        from <= stop <= to,
        forall|j: int| from <= j < stop ==> text[j] != c as char,
        stop < to ==> text[stop as int] == c as char,
{
    let mut i: usize = from;
    while i < to
        invariant
            holds_ascii(bytes@, text),
            from <= i <= to <= bytes@.len(),
            c < 128,
            forall|j: int| from <= j < i ==> text[j] != c as char,
        ensures
            from <= i <= to,
            forall|j: int| from <= j < i ==> text[j] != c as char,
            i < to ==> text[i as int] == c as char,
        decreases to - i,
    {
        if bytes[i] == c {
            break ;
        }
        i += 1;
    }
    i
}

} // verus!
