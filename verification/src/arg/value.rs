use crate::arg::{integer_value_message, ParseError};
use crate::decimal::{
    decimal_at_most, decimal_billionths, find_byte, holds_ascii, is_decimal_literal,
    lemma_decimal_literal_is_ascii, lemma_position_of, lemma_position_of_is_first,
    lemma_billionths_bound, lemma_decimal_literal_chars, lemma_reading_at_most, position_of,
    read_decimal, Reading, UNITS_PER_ONE,
};
use crate::model;
use crate::model::{Coordinate, CoordinateModifierType, ModifierType, Rgb};
use crate::numeral::{
    decimal_digits, is_digit, is_unsigned_literal, lemma_decimal_digits,
    lemma_decimal_digits_literal, lemma_literal_is_ascii, parse_unsigned, unsigned_value,
};
use crate::text::{
    equal, lowercase, to_lowercase, words_of, CAPITAL_A, CAPITAL_F, COMMA, DIGIT_0, DIGIT_9, MINUS,
    NUMBER_SIGN, PLUS, SMALL_A, SMALL_F,
};
use vstd::prelude::*;
use vstd::string::*;
use vstd::utf8::*;

verus! {

/// The way of applying a number that the first character of `s` selects: a
/// plus sign adds, a minus sign subtracts, anything else replaces.
pub open spec fn prefix_modifier_type(s: Seq<char>) -> ModifierType
    recommends
        s.len() > 0,
{
    if s[0] == '+' {
        ModifierType::Increment
    } else if s[0] == '-' {
        ModifierType::Decrement
    } else {
        ModifierType::Override
    }
}

/// The part of `s` that writes the number: `s` without the sign that selects
/// an addition or a subtraction.
pub open spec fn prefix_magnitude(s: Seq<char>) -> Seq<char>
    recommends
        s.len() > 0,
{
    if s[0] == '+' || s[0] == '-' {
        s.subrange(1, s.len() as int)
    } else {
        s
    }
}

/// What a text with an optional sign before an integer literal stands for,
/// if the integer is at most `max`.
pub open spec fn prefixed_integer(s: Seq<char>, max: nat) -> Option<(ModifierType, nat)> {
    if s.len() == 0 {
        None
    } else {
        match unsigned_value(prefix_magnitude(s), max) {
            Some(v) => Some((prefix_modifier_type(s), v)),
            None => None,
        }
    }
}

/// A text with a character outside ASCII stands for no integer.
pub proof fn lemma_prefixed_integer_is_ascii(s: Seq<char>, max: nat)
    requires
        !is_ascii_chars(s),
    ensures
        prefixed_integer(s, max) is None,
{
    let i = choose|i: int| 0 <= i < s.len() && !('\0' <= #[trigger] s[i] <= '\u{7f}');
    let m = prefix_magnitude(s);
    let j = if s[0] == '+' || s[0] == '-' {
        i - 1
    } else {
        i
    };
    assert(m[j] == s[i]);
    assert(!is_ascii_chars(m));
    lemma_literal_is_ascii(m);
}

/// Reads a sign and an integer of at most `max`. Where the text stands for
/// none, the answer is `error`.
pub fn parse_with_suffix(value_str: &str, max: u32, error: ParseError) -> (r: Result<
    (ModifierType, u32),
    ParseError,
>)
    ensures
        match r {
            Ok((modifier_type, value)) => prefixed_integer(value_str@, max as nat) == Some(
                (modifier_type, value as nat),
            ),
            Err(e) => prefixed_integer(value_str@, max as nat) is None && e == error,
        },
{
    if !value_str.is_ascii() {
        proof {
            lemma_prefixed_integer_is_ascii(value_str@, max as nat);
        }
        return Err(error);
    }
    proof {
        is_ascii_spec_bytes(value_str);
    }
    let bytes = value_str.as_bytes();
    let n = bytes.len();
    if n == 0 {
        return Err(error);
    }
    let first = bytes[0];
    let modifier_type = if first == PLUS {
        ModifierType::Increment
    } else if first == MINUS {
        ModifierType::Decrement
    } else {
        ModifierType::Override
    };
    let magnitude = if first == PLUS || first == MINUS {
        value_str.substring_ascii(1, n)
    } else {
        value_str
    };
    assert(magnitude@ == prefix_magnitude(value_str@));
    assert(modifier_type == prefix_modifier_type(value_str@));
    match parse_unsigned(magnitude, max) {
        Some(value) => Ok((modifier_type, value)),
        None => Err(error),
    }
}

/// The byte that a percentage is rescaled to: `percent * 255 / 100`, rounded
/// to the nearest integer, a half upwards.
pub open spec fn percentage_to_byte(percent: nat) -> nat {
    (percent * 255 + 50) / 100
}

/// The rescaled byte is the integer nearest to `percent * 255 / 100`: it
/// differs from it by at most a half, and a half is rounded upwards.
pub proof fn lemma_percentage_to_byte_nearest(percent: nat)
    ensures
        2 * (100 * percentage_to_byte(percent) - 255 * percent) <= 100,
        2 * (255 * percent - 100 * percentage_to_byte(percent)) < 100,
        percent <= 100 ==> percentage_to_byte(percent) <= 255,
{
}

/// What a text stands for as a percentage with an optional sign: the way of
/// applying it and the byte that it is rescaled to.
pub open spec fn prefixed_percentage(s: Seq<char>) -> Option<(ModifierType, u8)> {
    match prefixed_integer(s, 100) {
        Some((modifier_type, percent)) => Some((modifier_type, percentage_to_byte(percent) as u8)),
        None => None,
    }
}

/// What a text stands for as a 16-bit number with an optional sign.
pub open spec fn prefixed_word(s: Seq<char>) -> Option<(ModifierType, u16)> {
    match prefixed_integer(s, 0xffff) {
        Some((modifier_type, value)) => Some((modifier_type, value as u16)),
        None => None,
    }
}

fn parse_percentage(s: &str) -> (r: Result<(ModifierType, u8), ParseError>)
    ensures
        match r {
            Ok(v) => prefixed_percentage(s@) == Some(v),
            Err(e) => prefixed_percentage(s@) is None && e@ == integer_value_message(100),
        },
{
    let error = ParseError::from_integer_value(100);
    match parse_with_suffix(s, 100, error) {
        Ok((modifier_type, percent)) => {
            let scaled: u32 = (percent * 255 + 50) / 100;
            Ok((modifier_type, scaled as u8))
        },
        Err(e) => Err(e),
    }
}

fn parse_word(s: &str) -> (r: Result<(ModifierType, u16), ParseError>)
    ensures
        match r {
            Ok(v) => prefixed_word(s@) == Some(v),
            Err(e) => prefixed_word(s@) is None && e@ == integer_value_message(0xffff),
        },
{
    let error = ParseError::from_integer_value(0xffff);
    match parse_with_suffix(s, 0xffff, error) {
        Ok((modifier_type, value)) => Ok((modifier_type, value as u16)),
        Err(e) => Err(e),
    }
}

/// A brightness: a percentage, rescaled to a byte.
#[derive(Clone, Copy, Debug, PartialEq, Eq, Structural)]
pub struct Brightness {
    pub modifier_type: ModifierType,
    pub value: u8,
}

impl Brightness {
    /// Reads a percentage between 0 and 100 with an optional sign.
    pub fn from_str(s: &str) -> (r: Result<Self, ParseError>)
        ensures
            match r {
                Ok(v) => prefixed_percentage(s@) == Some((v.modifier_type, v.value)),
                Err(e) => prefixed_percentage(s@) is None && e@ == integer_value_message(100),
            },
    {
        match parse_percentage(s) {
            Ok((modifier_type, value)) => Ok(Self { modifier_type, value }),
            Err(e) => Err(e),
        }
    }
}

/// A hue: a 16-bit position on the colour wheel.
#[derive(Clone, Copy, Debug, PartialEq, Eq, Structural)]
pub struct Hue {
    pub modifier_type: ModifierType,
    pub value: u16,
}

impl Hue {
    /// Reads a number between 0 and 65535 with an optional sign.
    pub fn from_str(s: &str) -> (r: Result<Self, ParseError>)
        ensures
            match r {
                Ok(v) => prefixed_word(s@) == Some((v.modifier_type, v.value)),
                Err(e) => prefixed_word(s@) is None && e@ == integer_value_message(0xffff),
            },
    {
        match parse_word(s) {
            Ok((modifier_type, value)) => Ok(Self { modifier_type, value }),
            Err(e) => Err(e),
        }
    }
}

/// A saturation: a percentage, rescaled to a byte.
#[derive(Clone, Copy, Debug, PartialEq, Eq, Structural)]
pub struct Saturation {
    pub modifier_type: ModifierType,
    pub value: u8,
}

impl Saturation {
    /// Reads a percentage between 0 and 100 with an optional sign.
    pub fn from_str(s: &str) -> (r: Result<Self, ParseError>)
        ensures
            match r {
                Ok(v) => prefixed_percentage(s@) == Some((v.modifier_type, v.value)),
                Err(e) => prefixed_percentage(s@) is None && e@ == integer_value_message(100),
            },
    {
        match parse_percentage(s) {
            Ok((modifier_type, value)) => Ok(Self { modifier_type, value }),
            Err(e) => Err(e),
        }
    }
}

/// A colour temperature: a 16-bit number.
#[derive(Clone, Copy, Debug, PartialEq, Eq, Structural)]
pub struct ColorTemperature {
    pub modifier_type: ModifierType,
    pub value: u16,
}

impl ColorTemperature {
    /// Reads a number between 0 and 65535 with an optional sign.
    pub fn from_str(s: &str) -> (r: Result<Self, ParseError>)
        ensures
            match r {
                Ok(v) => prefixed_word(s@) == Some((v.modifier_type, v.value)),
                Err(e) => prefixed_word(s@) is None && e@ == integer_value_message(0xffff),
            },
    {
        match parse_word(s) {
            Ok((modifier_type, value)) => Ok(Self { modifier_type, value }),
            Err(e) => Err(e),
        }
    }
}

/// The number that a hexadecimal digit stands for, in either case.
pub open spec fn hex_digit_value(c: char) -> Option<nat> {
    if '0' <= c && c <= '9' {
        Some((c as u32 - '0' as u32) as nat)
    } else if 'a' <= c && c <= 'f' {
        Some((c as u32 - 'a' as u32 + 10) as nat)
    } else if 'A' <= c && c <= 'F' {
        Some((c as u32 - 'A' as u32 + 10) as nat)
    } else {
        None
    }
}

/// Whether the characters of `s` from position 1 on are hexadecimal digits.
pub open spec fn hex_digits_follow(s: Seq<char>) -> bool {
    forall|i: int| 1 <= i < s.len() ==> hex_digit_value(#[trigger] s[i]) is Some
}

/// The channel that the two hexadecimal digits `high` and `low` write.
pub open spec fn hex_channel(high: char, low: char) -> u8 {
    (16 * hex_digit_value(high).unwrap() + hex_digit_value(low).unwrap()) as u8
}

/// The colour that a text writes: a `#` followed by three hexadecimal
/// digits, one for each channel and each standing for itself twice, or by
/// six, two for each channel.
pub open spec fn hex_color(s: Seq<char>) -> Option<Rgb> {
    if s.len() == 4 && s[0] == '#' && hex_digits_follow(s) {
        Some(
            Rgb {
                red: hex_channel(s[1], s[1]),
                green: hex_channel(s[2], s[2]),
                blue: hex_channel(s[3], s[3]),
            },
        )
    } else if s.len() == 7 && s[0] == '#' && hex_digits_follow(s) {
        Some(
            Rgb {
                red: hex_channel(s[1], s[2]),
                green: hex_channel(s[3], s[4]),
                blue: hex_channel(s[5], s[6]),
            },
        )
    } else {
        None
    }
}

/// The description of a colour in hexadecimal digits.
pub open spec fn hex_color_message() -> Seq<char> {
    "The value must begin with `#` followed by 3 or 6 hex values."@
}

/// A text with a character outside ASCII writes no colour.
pub proof fn lemma_hex_color_is_ascii(s: Seq<char>)
    requires
        !is_ascii_chars(s),
    ensures
        hex_color(s) is None,
{
    let i = choose|i: int| 0 <= i < s.len() && !('\0' <= #[trigger] s[i] <= '\u{7f}');
    if i >= 1 {
        assert(hex_digit_value(s[i]) is None);
    }
}

/// The short form writes the colour that the long form writes with each
/// digit doubled.
pub proof fn lemma_hex_color_short_form(r: char, g: char, b: char)
    ensures
        hex_color(seq!['#', r, g, b]) == hex_color(seq!['#', r, r, g, g, b, b]),
{
    let short = seq!['#', r, g, b];
    let long = seq!['#', r, r, g, g, b, b];
    if hex_digits_follow(short) {
        assert(hex_digit_value(short[1]) is Some);
        assert(hex_digit_value(short[2]) is Some);
        assert(hex_digit_value(short[3]) is Some);
        assert(hex_digits_follow(long));
    } else {
        let i = choose|i: int| 1 <= i < short.len() && !(hex_digit_value(#[trigger] short[i]) is Some);
        let j = 2 * i - 1;
        assert(long[j] == short[i]);
        assert(!hex_digits_follow(long));
    }
}

fn hex_color_error() -> (e: ParseError)
    ensures
        e@ == hex_color_message(),
{
    ParseError::new("The value must begin with `#` followed by 3 or 6 hex values.")
}

fn hex_digit(b: u8) -> (r: Option<u8>)
    ensures
        match r {
            Some(v) => hex_digit_value(b as char) == Some(v as nat) && v < 16,
            None => hex_digit_value(b as char) is None,
        },
{
    if DIGIT_0 <= b && b <= DIGIT_9 {
        Some(b - DIGIT_0)
    } else if SMALL_A <= b && b <= SMALL_F {
        Some(b - SMALL_A + 10)
    } else if CAPITAL_A <= b && b <= CAPITAL_F {
        Some(b - CAPITAL_A + 10)
    } else {
        None
    }
}

/// A colour written in hexadecimal digits.
#[derive(Clone, Copy, Debug, PartialEq, Eq, Structural)]
pub struct ColorHex {
    pub value: Rgb,
}

impl ColorHex {
    /// Reads a `#` followed by three or six hexadecimal digits.
    pub fn from_str(s: &str) -> (r: Result<Self, ParseError>)
        ensures
            match r {
                Ok(v) => hex_color(s@) == Some(v.value),
                Err(e) => hex_color(s@) is None && e@ == hex_color_message(),
            },
    {
        if !s.is_ascii() {
            proof {
                lemma_hex_color_is_ascii(s@);
            }
            return Err(hex_color_error());
        }
        proof {
            is_ascii_spec_bytes(s);
        }
        let bytes = s.as_bytes();
        let n = bytes.len();
        if (n != 4 && n != 7) || bytes[0] != NUMBER_SIGN {
            return Err(hex_color_error());
        }
        let mut digits: Vec<u8> = Vec::new();
        let mut i: usize = 1;
        while i < n
            invariant
                is_ascii_chars(s@),
                n == s@.len(),
                bytes@ == Seq::new(s@.len(), |i: int| s@[i] as u8),
                1 <= i <= n,
                digits@.len() == i - 1,
                forall|j: int| 1 <= j < i ==> hex_digit_value(#[trigger] s@[j]) == Some(digits@[j - 1] as nat),
                forall|j: int| 0 <= j < i - 1 ==> #[trigger] digits@[j] < 16,
            decreases n - i,
        {
            let b = bytes[i];
            assert(b as char == s@[i as int]);
            match hex_digit(b) {
                Some(v) => {
                    digits.push(v);
                },
                None => {
                    return Err(hex_color_error());
                },
            }
            i += 1;
        }
        let value = if n == 4 {
            Rgb { red: digits[0] * 17, green: digits[1] * 17, blue: digits[2] * 17 }
        } else {
            Rgb {
                red: digits[0] * 16 + digits[1],
                green: digits[2] * 16 + digits[3],
                blue: digits[4] * 16 + digits[5],
            }
        };
        Ok(Self { value })
    }
}
/// An alert effect.
#[derive(Clone, Copy, Debug, PartialEq, Eq, Structural)]
pub struct Alert {
    pub value: model::Alert,
}

impl Alert {
    /// The words that name a value, in lowercase.
    pub open spec fn vocabulary() -> Seq<Seq<char>> {
        seq!["select"@, "lselect"@, "none"@]
    }

    /// The value that a lowercase word names.
    pub open spec fn named(word: Seq<char>) -> Option<model::Alert> {
        if word == "select"@ {
            Some(model::Alert::Select)
        } else if word == "lselect"@ {
            Some(model::Alert::LSelect)
        } else if word == "none"@ {
            Some(model::Alert::Off)
        } else {
            None
        }
    }

    /// The words that name a value, in lowercase.
    pub fn variants() -> (r: &'static [&'static str])
        ensures
            words_of(r@) == Self::vocabulary(),
    {
        let r: &'static [&'static str] = &["select", "lselect", "none"];
        assert(words_of(r@) =~= Self::vocabulary());
        r
    }

    /// The value that `word` names. The word is compared as it is written:
    /// it names a value only in lowercase.
    pub fn from_lowercase(word: &str) -> (r: Option<Self>)
        ensures
            match r {
                Some(v) => Self::named(word@) == Some(v.value),
                None => Self::named(word@) is None,
            },
    {
        if equal(word, "select") {
            Some(Self { value: model::Alert::Select })
        } else if equal(word, "lselect") {
            Some(Self { value: model::Alert::LSelect })
        } else if equal(word, "none") {
            Some(Self { value: model::Alert::Off })
        } else {
            None
        }
    }

    /// The value that `s` names, whatever the case of its letters.
    pub fn from_str(s: &str) -> (r: Result<Self, ParseError>)
        ensures
            match r {
                Ok(v) => Self::named(lowercase(s@)) == Some(v.value),
                Err(e) => Self::named(lowercase(s@)) is None && e@ == "Invalid value for alert"@,
            },
    {
        let word = to_lowercase(s);
        match Self::from_lowercase(word.as_str()) {
            Some(v) => Ok(v),
            None => Err(ParseError::new("Invalid value for alert")),
        }
    }

    /// A word names a value exactly when it is one of the listed words.
    pub proof fn lemma_vocabulary(word: Seq<char>)
        ensures
            Self::named(word) is Some <==> Self::vocabulary().contains(word),
    {
        if Self::named(word) is Some {
            if word == "select"@ {
                assert(Self::vocabulary()[0] == word);
            } else if word == "lselect"@ {
                assert(Self::vocabulary()[1] == word);
            } else if word == "none"@ {
                assert(Self::vocabulary()[2] == word);
            }
        }
    }
}

/// A dynamic effect.
#[derive(Clone, Copy, Debug, PartialEq, Eq, Structural)]
pub struct Effect {
    pub value: model::Effect,
}

impl Effect {
    /// The words that name a value, in lowercase.
    pub open spec fn vocabulary() -> Seq<Seq<char>> {
        seq!["colorloop"@, "none"@]
    }

    /// The value that a lowercase word names.
    pub open spec fn named(word: Seq<char>) -> Option<model::Effect> {
        if word == "colorloop"@ {
            Some(model::Effect::Colorloop)
        } else if word == "none"@ {
            Some(model::Effect::Off)
        } else {
            None
        }
    }

    /// The words that name a value, in lowercase.
    pub fn variants() -> (r: &'static [&'static str])
        ensures
            words_of(r@) == Self::vocabulary(),
    {
        let r: &'static [&'static str] = &["colorloop", "none"];
        assert(words_of(r@) =~= Self::vocabulary());
        r
    }

    /// The value that `word` names. The word is compared as it is written:
    /// it names a value only in lowercase.
    pub fn from_lowercase(word: &str) -> (r: Option<Self>)
        ensures
            match r {
                Some(v) => Self::named(word@) == Some(v.value),
                None => Self::named(word@) is None,
            },
    {
        if equal(word, "colorloop") {
            Some(Self { value: model::Effect::Colorloop })
        } else if equal(word, "none") {
            Some(Self { value: model::Effect::Off })
        } else {
            None
        }
    }

    /// The value that `s` names, whatever the case of its letters.
    pub fn from_str(s: &str) -> (r: Result<Self, ParseError>)
        ensures
            match r {
                Ok(v) => Self::named(lowercase(s@)) == Some(v.value),
                Err(e) => Self::named(lowercase(s@)) is None && e@ == "Invalid value for effect"@,
            },
    {
        let word = to_lowercase(s);
        match Self::from_lowercase(word.as_str()) {
            Some(v) => Ok(v),
            None => Err(ParseError::new("Invalid value for effect")),
        }
    }

    /// A word names a value exactly when it is one of the listed words.
    pub proof fn lemma_vocabulary(word: Seq<char>)
        ensures
            Self::named(word) is Some <==> Self::vocabulary().contains(word),
    {
        if Self::named(word) is Some {
            if word == "colorloop"@ {
                assert(Self::vocabulary()[0] == word);
            } else if word == "none"@ {
                assert(Self::vocabulary()[1] == word);
            }
        }
    }
}

/// The kind of a group that can be created.
#[derive(Clone, Copy, Debug, PartialEq, Eq, Structural)]
pub struct GroupTypeCreator {
    pub value: model::group::CreatableKind,
}

impl GroupTypeCreator {
    /// The words that name a value, in lowercase.
    pub open spec fn vocabulary() -> Seq<Seq<char>> {
        seq!["lightgroup"@, "room"@, "entertainment"@, "zone"@]
    }

    /// The value that a lowercase word names.
    pub open spec fn named(word: Seq<char>) -> Option<model::group::CreatableKind> {
        if word == "lightgroup"@ {
            Some(model::group::CreatableKind::LightGroup)
        } else if word == "room"@ {
            Some(model::group::CreatableKind::Room)
        } else if word == "entertainment"@ {
            Some(model::group::CreatableKind::Entertainment)
        } else if word == "zone"@ {
            Some(model::group::CreatableKind::Zone)
        } else {
            None
        }
    }

    /// The words that name a value, in lowercase.
    pub fn variants() -> (r: &'static [&'static str])
        ensures
            words_of(r@) == Self::vocabulary(),
    {
        let r: &'static [&'static str] = &["lightgroup", "room", "entertainment", "zone"];
        assert(words_of(r@) =~= Self::vocabulary());
        r
    }

    /// The value that `word` names. The word is compared as it is written:
    /// it names a value only in lowercase.
    pub fn from_lowercase(word: &str) -> (r: Option<Self>)
        ensures
            match r {
                Some(v) => Self::named(word@) == Some(v.value),
                None => Self::named(word@) is None,
            },
    {
        if equal(word, "lightgroup") {
            Some(Self { value: model::group::CreatableKind::LightGroup })
        } else if equal(word, "room") {
            Some(Self { value: model::group::CreatableKind::Room })
        } else if equal(word, "entertainment") {
            Some(Self { value: model::group::CreatableKind::Entertainment })
        } else if equal(word, "zone") {
            Some(Self { value: model::group::CreatableKind::Zone })
        } else {
            None
        }
    }

    /// The value that `s` names, whatever the case of its letters.
    pub fn from_str(s: &str) -> (r: Result<Self, ParseError>)
        ensures
            match r {
                Ok(v) => Self::named(lowercase(s@)) == Some(v.value),
                Err(e) => Self::named(lowercase(s@)) is None && e@ == "Invalid value for kind"@,
            },
    {
        let word = to_lowercase(s);
        match Self::from_lowercase(word.as_str()) {
            Some(v) => Ok(v),
            None => Err(ParseError::new("Invalid value for kind")),
        }
    }

    /// A word names a value exactly when it is one of the listed words.
    pub proof fn lemma_vocabulary(word: Seq<char>)
        ensures
            Self::named(word) is Some <==> Self::vocabulary().contains(word),
    {
        if Self::named(word) is Some {
            if word == "lightgroup"@ {
                assert(Self::vocabulary()[0] == word);
            } else if word == "room"@ {
                assert(Self::vocabulary()[1] == word);
            } else if word == "entertainment"@ {
                assert(Self::vocabulary()[2] == word);
            } else if word == "zone"@ {
                assert(Self::vocabulary()[3] == word);
            }
        }
    }
}

/// The class of a room.
#[derive(Clone, Copy, Debug, PartialEq, Eq, Structural)]
pub struct GroupClass {
    pub value: model::group::Class,
}

impl GroupClass {
    /// The words that name a value, in lowercase.
    pub open spec fn vocabulary() -> Seq<Seq<char>> {
        seq!["attic"@, "balcony"@, "barbecue"@, "bathroom"@, "bedroom"@, "carport"@, "closet"@, "computer"@, "dining"@, "downstairs"@, "driveway"@, "frontdoor"@, "garage"@, "garden"@, "guestroom"@, "gym"@, "hallway"@, "home"@, "kidsbedroom"@, "kitchen"@, "laundryroom"@, "livingroom"@, "lounge"@, "mancave"@, "music"@, "nursery"@, "office"@, "other"@, "pool"@, "porch"@, "reading"@, "recreation"@, "staircase"@, "storage"@, "studio"@, "tv"@, "terrace"@, "toilet"@, "topfloor"@, "upstairs"@]
    }

    /// The value that a lowercase word names.
    pub open spec fn named(word: Seq<char>) -> Option<model::group::Class> {
        if word == "attic"@ {
            Some(model::group::Class::Attic)
        } else if word == "balcony"@ {
            Some(model::group::Class::Balcony)
        } else if word == "barbecue"@ {
            Some(model::group::Class::Barbecue)
        } else if word == "bathroom"@ {
            Some(model::group::Class::Bathroom)
        } else if word == "bedroom"@ {
            Some(model::group::Class::Bedroom)
        } else if word == "carport"@ {
            Some(model::group::Class::Carport)
        } else if word == "closet"@ {
            Some(model::group::Class::Closet)
        } else if word == "computer"@ {
            Some(model::group::Class::Computer)
        } else if word == "dining"@ {
            Some(model::group::Class::Dining)
        } else if word == "downstairs"@ {
            Some(model::group::Class::Downstairs)
        } else if word == "driveway"@ {
            Some(model::group::Class::Driveway)
        } else if word == "frontdoor"@ {
            Some(model::group::Class::FrontDoor)
        } else if word == "garage"@ {
            Some(model::group::Class::Garage)
        } else if word == "garden"@ {
            Some(model::group::Class::Garden)
        } else if word == "guestroom"@ {
            Some(model::group::Class::GuestRoom)
        } else if word == "gym"@ {
            Some(model::group::Class::Gym)
        } else if word == "hallway"@ {
            Some(model::group::Class::Hallway)
        } else if word == "home"@ {
            Some(model::group::Class::Home)
        } else if word == "kidsbedroom"@ {
            Some(model::group::Class::KidsBedroom)
        } else if word == "kitchen"@ {
            Some(model::group::Class::Kitchen)
        } else if word == "laundryroom"@ {
            Some(model::group::Class::LaundryRoom)
        } else if word == "livingroom"@ {
            Some(model::group::Class::LivingRoom)
        } else if word == "lounge"@ {
            Some(model::group::Class::Lounge)
        } else if word == "mancave"@ {
            Some(model::group::Class::ManCave)
        } else if word == "music"@ {
            Some(model::group::Class::Music)
        } else if word == "nursery"@ {
            Some(model::group::Class::Nursery)
        } else if word == "office"@ {
            Some(model::group::Class::Office)
        } else if word == "other"@ {
            Some(model::group::Class::Other)
        } else if word == "pool"@ {
            Some(model::group::Class::Pool)
        } else if word == "porch"@ {
            Some(model::group::Class::Porch)
        } else if word == "reading"@ {
            Some(model::group::Class::Reading)
        } else if word == "recreation"@ {
            Some(model::group::Class::Recreation)
        } else if word == "staircase"@ {
            Some(model::group::Class::Staircase)
        } else if word == "storage"@ {
            Some(model::group::Class::Storage)
        } else if word == "studio"@ {
            Some(model::group::Class::Studio)
        } else if word == "tv"@ {
            Some(model::group::Class::TV)
        } else if word == "terrace"@ {
            Some(model::group::Class::Terrace)
        } else if word == "toilet"@ {
            Some(model::group::Class::Toilet)
        } else if word == "topfloor"@ {
            Some(model::group::Class::TopFloor)
        } else if word == "upstairs"@ {
            Some(model::group::Class::Upstairs)
        } else {
            None
        }
    }

    /// The words that name a value, in lowercase.
    pub fn variants() -> (r: &'static [&'static str])
        ensures
            words_of(r@) == Self::vocabulary(),
    {
        let r: &'static [&'static str] = &["attic", "balcony", "barbecue", "bathroom", "bedroom", "carport", "closet", "computer", "dining", "downstairs", "driveway", "frontdoor", "garage", "garden", "guestroom", "gym", "hallway", "home", "kidsbedroom", "kitchen", "laundryroom", "livingroom", "lounge", "mancave", "music", "nursery", "office", "other", "pool", "porch", "reading", "recreation", "staircase", "storage", "studio", "tv", "terrace", "toilet", "topfloor", "upstairs"];
        assert(words_of(r@) =~= Self::vocabulary());
        r
    }

    /// The value that `word` names. The word is compared as it is written:
    /// it names a value only in lowercase.
    pub fn from_lowercase(word: &str) -> (r: Option<Self>)
        ensures
            match r {
                Some(v) => Self::named(word@) == Some(v.value),
                None => Self::named(word@) is None,
            },
    {
        if equal(word, "attic") {
            Some(Self { value: model::group::Class::Attic })
        } else if equal(word, "balcony") {
            Some(Self { value: model::group::Class::Balcony })
        } else if equal(word, "barbecue") {
            Some(Self { value: model::group::Class::Barbecue })
        } else if equal(word, "bathroom") {
            Some(Self { value: model::group::Class::Bathroom })
        } else if equal(word, "bedroom") {
            Some(Self { value: model::group::Class::Bedroom })
        } else if equal(word, "carport") {
            Some(Self { value: model::group::Class::Carport })
        } else if equal(word, "closet") {
            Some(Self { value: model::group::Class::Closet })
        } else if equal(word, "computer") {
            Some(Self { value: model::group::Class::Computer })
        } else if equal(word, "dining") {
            Some(Self { value: model::group::Class::Dining })
        } else if equal(word, "downstairs") {
            Some(Self { value: model::group::Class::Downstairs })
        } else if equal(word, "driveway") {
            Some(Self { value: model::group::Class::Driveway })
        } else if equal(word, "frontdoor") {
            Some(Self { value: model::group::Class::FrontDoor })
        } else if equal(word, "garage") {
            Some(Self { value: model::group::Class::Garage })
        } else if equal(word, "garden") {
            Some(Self { value: model::group::Class::Garden })
        } else if equal(word, "guestroom") {
            Some(Self { value: model::group::Class::GuestRoom })
        } else if equal(word, "gym") {
            Some(Self { value: model::group::Class::Gym })
        } else if equal(word, "hallway") {
            Some(Self { value: model::group::Class::Hallway })
        } else if equal(word, "home") {
            Some(Self { value: model::group::Class::Home })
        } else if equal(word, "kidsbedroom") {
            Some(Self { value: model::group::Class::KidsBedroom })
        } else if equal(word, "kitchen") {
            Some(Self { value: model::group::Class::Kitchen })
        } else if equal(word, "laundryroom") {
            Some(Self { value: model::group::Class::LaundryRoom })
        } else if equal(word, "livingroom") {
            Some(Self { value: model::group::Class::LivingRoom })
        } else if equal(word, "lounge") {
            Some(Self { value: model::group::Class::Lounge })
        } else if equal(word, "mancave") {
            Some(Self { value: model::group::Class::ManCave })
        } else if equal(word, "music") {
            Some(Self { value: model::group::Class::Music })
        } else if equal(word, "nursery") {
            Some(Self { value: model::group::Class::Nursery })
        } else if equal(word, "office") {
            Some(Self { value: model::group::Class::Office })
        } else if equal(word, "other") {
            Some(Self { value: model::group::Class::Other })
        } else if equal(word, "pool") {
            Some(Self { value: model::group::Class::Pool })
        } else if equal(word, "porch") {
            Some(Self { value: model::group::Class::Porch })
        } else if equal(word, "reading") {
            Some(Self { value: model::group::Class::Reading })
        } else if equal(word, "recreation") {
            Some(Self { value: model::group::Class::Recreation })
        } else if equal(word, "staircase") {
            Some(Self { value: model::group::Class::Staircase })
        } else if equal(word, "storage") {
            Some(Self { value: model::group::Class::Storage })
        } else if equal(word, "studio") {
            Some(Self { value: model::group::Class::Studio })
        } else if equal(word, "tv") {
            Some(Self { value: model::group::Class::TV })
        } else if equal(word, "terrace") {
            Some(Self { value: model::group::Class::Terrace })
        } else if equal(word, "toilet") {
            Some(Self { value: model::group::Class::Toilet })
        } else if equal(word, "topfloor") {
            Some(Self { value: model::group::Class::TopFloor })
        } else if equal(word, "upstairs") {
            Some(Self { value: model::group::Class::Upstairs })
        } else {
            None
        }
    }

    /// The value that `s` names, whatever the case of its letters.
    pub fn from_str(s: &str) -> (r: Result<Self, ParseError>)
        ensures
            match r {
                Ok(v) => Self::named(lowercase(s@)) == Some(v.value),
                Err(e) => Self::named(lowercase(s@)) is None && e@ == "Invalid value for class"@,
            },
    {
        let word = to_lowercase(s);
        match Self::from_lowercase(word.as_str()) {
            Some(v) => Ok(v),
            None => Err(ParseError::new("Invalid value for class")),
        }
    }

    /// A word names a value exactly when it is one of the listed words.
    pub proof fn lemma_vocabulary(word: Seq<char>)
        ensures
            Self::named(word) is Some <==> Self::vocabulary().contains(word),
    {
        if Self::named(word) is Some {
            if word == "attic"@ {
                assert(Self::vocabulary()[0] == word);
            } else if word == "balcony"@ {
                assert(Self::vocabulary()[1] == word);
            } else if word == "barbecue"@ {
                assert(Self::vocabulary()[2] == word);
            } else if word == "bathroom"@ {
                assert(Self::vocabulary()[3] == word);
            } else if word == "bedroom"@ {
                assert(Self::vocabulary()[4] == word);
            } else if word == "carport"@ {
                assert(Self::vocabulary()[5] == word);
            } else if word == "closet"@ {
                assert(Self::vocabulary()[6] == word);
            } else if word == "computer"@ {
                assert(Self::vocabulary()[7] == word);
            } else if word == "dining"@ {
                assert(Self::vocabulary()[8] == word);
            } else if word == "downstairs"@ {
                assert(Self::vocabulary()[9] == word);
            } else if word == "driveway"@ {
                assert(Self::vocabulary()[10] == word);
            } else if word == "frontdoor"@ {
                assert(Self::vocabulary()[11] == word);
            } else if word == "garage"@ {
                assert(Self::vocabulary()[12] == word);
            } else if word == "garden"@ {
                assert(Self::vocabulary()[13] == word);
            } else if word == "guestroom"@ {
                assert(Self::vocabulary()[14] == word);
            } else if word == "gym"@ {
                assert(Self::vocabulary()[15] == word);
            } else if word == "hallway"@ {
                assert(Self::vocabulary()[16] == word);
            } else if word == "home"@ {
                assert(Self::vocabulary()[17] == word);
            } else if word == "kidsbedroom"@ {
                assert(Self::vocabulary()[18] == word);
            } else if word == "kitchen"@ {
                assert(Self::vocabulary()[19] == word);
            } else if word == "laundryroom"@ {
                assert(Self::vocabulary()[20] == word);
            } else if word == "livingroom"@ {
                assert(Self::vocabulary()[21] == word);
            } else if word == "lounge"@ {
                assert(Self::vocabulary()[22] == word);
            } else if word == "mancave"@ {
                assert(Self::vocabulary()[23] == word);
            } else if word == "music"@ {
                assert(Self::vocabulary()[24] == word);
            } else if word == "nursery"@ {
                assert(Self::vocabulary()[25] == word);
            } else if word == "office"@ {
                assert(Self::vocabulary()[26] == word);
            } else if word == "other"@ {
                assert(Self::vocabulary()[27] == word);
            } else if word == "pool"@ {
                assert(Self::vocabulary()[28] == word);
            } else if word == "porch"@ {
                assert(Self::vocabulary()[29] == word);
            } else if word == "reading"@ {
                assert(Self::vocabulary()[30] == word);
            } else if word == "recreation"@ {
                assert(Self::vocabulary()[31] == word);
            } else if word == "staircase"@ {
                assert(Self::vocabulary()[32] == word);
            } else if word == "storage"@ {
                assert(Self::vocabulary()[33] == word);
            } else if word == "studio"@ {
                assert(Self::vocabulary()[34] == word);
            } else if word == "tv"@ {
                assert(Self::vocabulary()[35] == word);
            } else if word == "terrace"@ {
                assert(Self::vocabulary()[36] == word);
            } else if word == "toilet"@ {
                assert(Self::vocabulary()[37] == word);
            } else if word == "topfloor"@ {
                assert(Self::vocabulary()[38] == word);
            } else if word == "upstairs"@ {
                assert(Self::vocabulary()[39] == word);
            }
        }
    }
}

/// The kind of a scene.
#[derive(Clone, Copy, Debug, PartialEq, Eq, Structural)]
pub struct SceneType {
    pub value: model::scene::Kind,
}

impl SceneType {
    /// The words that name a value, in lowercase.
    pub open spec fn vocabulary() -> Seq<Seq<char>> {
        seq!["lightscene"@, "groupscene"@]
    }

    /// The value that a lowercase word names.
    pub open spec fn named(word: Seq<char>) -> Option<model::scene::Kind> {
        if word == "lightscene"@ {
            Some(model::scene::Kind::LightScene)
        } else if word == "groupscene"@ {
            Some(model::scene::Kind::GroupScene)
        } else {
            None
        }
    }

    /// The words that name a value, in lowercase.
    pub fn variants() -> (r: &'static [&'static str])
        ensures
            words_of(r@) == Self::vocabulary(),
    {
        let r: &'static [&'static str] = &["lightscene", "groupscene"];
        assert(words_of(r@) =~= Self::vocabulary());
        r
    }

    /// The value that `word` names. The word is compared as it is written:
    /// it names a value only in lowercase.
    pub fn from_lowercase(word: &str) -> (r: Option<Self>)
        ensures
            match r {
                Some(v) => Self::named(word@) == Some(v.value),
                None => Self::named(word@) is None,
            },
    {
        if equal(word, "lightscene") {
            Some(Self { value: model::scene::Kind::LightScene })
        } else if equal(word, "groupscene") {
            Some(Self { value: model::scene::Kind::GroupScene })
        } else {
            None
        }
    }

    /// The value that `s` names, whatever the case of its letters.
    pub fn from_str(s: &str) -> (r: Result<Self, ParseError>)
        ensures
            match r {
                Ok(v) => Self::named(lowercase(s@)) == Some(v.value),
                Err(e) => Self::named(lowercase(s@)) is None && e@ == "Invalid value for kind"@,
            },
    {
        let word = to_lowercase(s);
        match Self::from_lowercase(word.as_str()) {
            Some(v) => Ok(v),
            None => Err(ParseError::new("Invalid value for kind")),
        }
    }

    /// A word names a value exactly when it is one of the listed words.
    pub proof fn lemma_vocabulary(word: Seq<char>)
        ensures
            Self::named(word) is Some <==> Self::vocabulary().contains(word),
    {
        if Self::named(word) is Some {
            if word == "lightscene"@ {
                assert(Self::vocabulary()[0] == word);
            } else if word == "groupscene"@ {
                assert(Self::vocabulary()[1] == word);
            }
        }
    }
}

/// The request method of a scheduled command.
#[derive(Clone, Copy, Debug, PartialEq, Eq, Structural)]
pub struct ScheduleRequestType {
    pub value: model::ActionRequestType,
}

impl ScheduleRequestType {
    /// The words that name a value, in lowercase.
    pub open spec fn vocabulary() -> Seq<Seq<char>> {
        seq!["put"@, "post"@, "delete"@]
    }

    /// The value that a lowercase word names.
    pub open spec fn named(word: Seq<char>) -> Option<model::ActionRequestType> {
        if word == "put"@ {
            Some(model::ActionRequestType::Put)
        } else if word == "post"@ {
            Some(model::ActionRequestType::Post)
        } else if word == "delete"@ {
            Some(model::ActionRequestType::Delete)
        } else {
            None
        }
    }

    /// The words that name a value, in lowercase.
    pub fn variants() -> (r: &'static [&'static str])
        ensures
            words_of(r@) == Self::vocabulary(),
    {
        let r: &'static [&'static str] = &["put", "post", "delete"];
        assert(words_of(r@) =~= Self::vocabulary());
        r
    }

    /// The value that `word` names. The word is compared as it is written:
    /// it names a value only in lowercase.
    pub fn from_lowercase(word: &str) -> (r: Option<Self>)
        ensures
            match r {
                Some(v) => Self::named(word@) == Some(v.value),
                None => Self::named(word@) is None,
            },
    {
        if equal(word, "put") {
            Some(Self { value: model::ActionRequestType::Put })
        } else if equal(word, "post") {
            Some(Self { value: model::ActionRequestType::Post })
        } else if equal(word, "delete") {
            Some(Self { value: model::ActionRequestType::Delete })
        } else {
            None
        }
    }

    /// The value that `s` names, whatever the case of its letters.
    pub fn from_str(s: &str) -> (r: Result<Self, ParseError>)
        ensures
            match r {
                Ok(v) => Self::named(lowercase(s@)) == Some(v.value),
                Err(e) => Self::named(lowercase(s@)) is None && e@ == "Invalid value for request type"@,
            },
    {
        let word = to_lowercase(s);
        match Self::from_lowercase(word.as_str()) {
            Some(v) => Ok(v),
            None => Err(ParseError::new("Invalid value for request type")),
        }
    }

    /// A word names a value exactly when it is one of the listed words.
    pub proof fn lemma_vocabulary(word: Seq<char>)
        ensures
            Self::named(word) is Some <==> Self::vocabulary().contains(word),
    {
        if Self::named(word) is Some {
            if word == "put"@ {
                assert(Self::vocabulary()[0] == word);
            } else if word == "post"@ {
                assert(Self::vocabulary()[1] == word);
            } else if word == "delete"@ {
                assert(Self::vocabulary()[2] == word);
            }
        }
    }
}


/// Whether `token` writes one coordinate: an optional sign, then an unsigned
/// decimal literal.
pub open spec fn is_coordinate_token(token: Seq<char>) -> bool {
    token.len() > 0 && is_decimal_literal(prefix_magnitude(token))
}

/// The way of applying a pair of coordinates that the ways of its two
/// coordinates make together, if they agree: both replace; or each adds or
/// subtracts.
pub open spec fn joint_modifier_type(x: ModifierType, y: ModifierType) -> Option<
    CoordinateModifierType,
> {
    match (x, y) {
        (ModifierType::Override, ModifierType::Override) => Some(CoordinateModifierType::Override),
        (ModifierType::Increment, ModifierType::Increment) => Some(
            CoordinateModifierType::Increment,
        ),
        (ModifierType::Decrement, ModifierType::Decrement) => Some(
            CoordinateModifierType::Decrement,
        ),
        (ModifierType::Increment, ModifierType::Decrement) => Some(
            CoordinateModifierType::IncrementThenDecrement,
        ),
        (ModifierType::Decrement, ModifierType::Increment) => Some(
            CoordinateModifierType::DecrementThenIncrement,
        ),
        _ => None,
    }
}

/// Into how many parts the range from 0 to 1 is cut for a coordinate: it
/// may be at most 1 where it replaces, at most a half where it is added or
/// subtracted.
pub open spec fn coordinate_parts(joint: CoordinateModifierType) -> nat {
    if joint == CoordinateModifierType::Override {
        1
    } else {
        2
    }
}

/// The description of the notation of a pair of coordinates.
pub open spec fn coordinates_notation_message() -> Seq<char> {
    "The value must be two decimal numbers separated by a comma, each can have '-' or '+' as prefix."@
}

/// The description of the rule on the signs of a pair of coordinates.
pub open spec fn coordinates_prefix_message() -> Seq<char> {
    "Either both coordinates must have a prefix or neither of them."@
}

/// The description of the range of a coordinate under `joint`.
pub open spec fn coordinates_range_message(joint: CoordinateModifierType) -> Seq<char> {
    if joint == CoordinateModifierType::Override {
        "The coordinates must be between 0 and 1."@
    } else {
        "The coordinates must be between 0 and 0.5 if they have a prefix."@
    }
}

/// What a text stands for as a pair of coordinates, or the description that
/// it is rejected with. The text is two coordinates with one comma between
/// them; their signs must agree; and each must lie in the range that goes
/// with the way of applying them.
pub open spec fn parsed_coordinates(s: Seq<char>) -> Result<ColorSpaceCoordinates, Seq<char>> {
    let comma = position_of(s, ',');
    let left = s.take(comma);
    let right = s.skip(comma + 1);
    if !(comma < s.len() && position_of(right, ',') == right.len() && is_coordinate_token(left)
        && is_coordinate_token(right)) {
        Err(coordinates_notation_message())
    } else {
        match joint_modifier_type(prefix_modifier_type(left), prefix_modifier_type(right)) {
            None => Err(coordinates_prefix_message()),
            Some(joint) => {
                let x = prefix_magnitude(left);
                let y = prefix_magnitude(right);
                if decimal_at_most(x, coordinate_parts(joint)) && decimal_at_most(
                    y,
                    coordinate_parts(joint),
                ) {
                    Ok(
                        ColorSpaceCoordinates {
                            modifier_type: joint,
                            x: Coordinate { billionths: decimal_billionths(x) as u32 },
                            y: Coordinate { billionths: decimal_billionths(y) as u32 },
                        },
                    )
                } else {
                    Err(coordinates_range_message(joint))
                }
            },
        }
    }
}

/// A text with a character outside ASCII is rejected for its notation.
pub proof fn lemma_parsed_coordinates_is_ascii(s: Seq<char>)
    requires
        !is_ascii_chars(s),
    ensures
        parsed_coordinates(s) == Err::<ColorSpaceCoordinates, Seq<char>>(
            coordinates_notation_message(),
        ),
{
    let i = choose|i: int| 0 <= i < s.len() && !('\0' <= #[trigger] s[i] <= '\u{7f}');
    lemma_position_of_is_first(s, ',');
    let comma = position_of(s, ',');
    let left = s.take(comma);
    let right = s.skip(comma + 1);
    if comma < s.len() {
        let token = if i < comma {
            left
        } else {
            right
        };
        let at = if i < comma {
            i
        } else {
            i - comma - 1
        };
        assert(token[at] == s[i]);
        let magnitude = prefix_magnitude(token);
        let j = if token[0] == '+' || token[0] == '-' {
            at - 1
        } else {
            at
        };
        assert(magnitude[j] == token[at]);
        assert(!is_ascii_chars(magnitude));
        lemma_decimal_literal_is_ascii(magnitude);
    }
}

/// A coordinate holds no comma.
pub proof fn lemma_coordinate_token_has_no_comma(token: Seq<char>)
    requires
        is_coordinate_token(token),
    ensures
        !token.contains(','),
{
    let magnitude = prefix_magnitude(token);
    lemma_decimal_literal_chars(magnitude, ',');
    assert forall|i: int| 0 <= i < token.len() implies token[i] != ',' by {
        if token[0] == '+' || token[0] == '-' {
            if i > 0 {
                assert(magnitude[i - 1] == token[i]);
                assert(magnitude.contains(token[i]));
            }
        } else {
            assert(magnitude[i] == token[i]);
            assert(magnitude.contains(token[i]));
        }
    }
}

/// What two coordinates with a comma between them stand for. Where their
/// signs do not agree, the pair is rejected for its signs. Where they agree,
/// the pair is accepted exactly when both coordinates are in range: at most 1
/// where they replace, at most a half where they are added or subtracted. An
/// accepted pair holds at most a billion billionths on each axis.
pub proof fn lemma_coordinates_range(left: Seq<char>, right: Seq<char>)
    requires
        is_coordinate_token(left),
        is_coordinate_token(right),
    ensures
        ({
            let parsed = parsed_coordinates(left + seq![','] + right);
            let x = prefix_magnitude(left);
            let y = prefix_magnitude(right);
            match joint_modifier_type(prefix_modifier_type(left), prefix_modifier_type(right)) {
                None => parsed == Err::<ColorSpaceCoordinates, Seq<char>>(
                    coordinates_prefix_message(),
                ),
                Some(joint) => if decimal_at_most(x, coordinate_parts(joint)) && decimal_at_most(
                    y,
                    coordinate_parts(joint),
                ) {
                    &&& parsed matches Ok(v)
                    &&& v.modifier_type == joint
                    &&& v.x.billionths == decimal_billionths(x)
                    &&& v.y.billionths == decimal_billionths(y)
                    &&& v.x.billionths * coordinate_parts(joint) <= 1_000_000_000
                    &&& v.y.billionths * coordinate_parts(joint) <= 1_000_000_000
                } else {
                    parsed == Err::<ColorSpaceCoordinates, Seq<char>>(
                        coordinates_range_message(joint),
                    )
                },
            }
        }),
{
    let s = left + seq![','] + right;
    lemma_coordinate_token_has_no_comma(left);
    lemma_coordinate_token_has_no_comma(right);
    assert forall|j: int| 0 <= j < left.len() implies s[j] != ',' by {
        assert(s[j] == left[j]);
        assert(left.contains(s[j]));
    }
    assert(s[left.len() as int] == ',');
    lemma_position_of(s, ',', left.len() as int);
    assert(s.take(left.len() as int) =~= left);
    assert(s.skip(left.len() as int + 1) =~= right);
    assert forall|j: int| 0 <= j < right.len() implies right[j] != ',' by {
        assert(right.contains(right[j]));
    }
    lemma_position_of(right, ',', right.len() as int);
    match joint_modifier_type(prefix_modifier_type(left), prefix_modifier_type(right)) {
        None => {},
        Some(joint) => {
            let x = prefix_magnitude(left);
            let y = prefix_magnitude(right);
            if decimal_at_most(x, coordinate_parts(joint)) && decimal_at_most(
                y,
                coordinate_parts(joint),
            ) {
                lemma_billionths_bound(x, coordinate_parts(joint));
                lemma_billionths_bound(y, coordinate_parts(joint));
            }
        },
    }
}

/// A coordinate that is in range where it is added or subtracted is in range
/// where it replaces.
pub proof fn lemma_relative_range_is_narrower(magnitude: Seq<char>)
    requires
        decimal_at_most(magnitude, 2),
    ensures
        decimal_at_most(magnitude, 1),
{
}

/// Two ways of applying a coordinate, made into one for the pair.
pub fn reconcile(x: ModifierType, y: ModifierType) -> (r: Option<CoordinateModifierType>)
    ensures
        r == joint_modifier_type(x, y),
{
    match (x, y) {
        (ModifierType::Override, ModifierType::Override) => Some(CoordinateModifierType::Override),
        (ModifierType::Increment, ModifierType::Increment) => Some(
            CoordinateModifierType::Increment,
        ),
        (ModifierType::Decrement, ModifierType::Decrement) => Some(
            CoordinateModifierType::Decrement,
        ),
        (ModifierType::Increment, ModifierType::Decrement) => Some(
            CoordinateModifierType::IncrementThenDecrement,
        ),
        (ModifierType::Decrement, ModifierType::Increment) => Some(
            CoordinateModifierType::DecrementThenIncrement,
        ),
        _ => None,
    }
}

fn notation_error() -> (e: ParseError)
    ensures
        e@ == coordinates_notation_message(),
{
    ParseError::new(
        "The value must be two decimal numbers separated by a comma, each can have '-' or '+' as prefix.",
    )
}

/// Reads the characters of `text` from `from` to `to` as one coordinate.
fn read_coordinate(bytes: &[u8], from: usize, to: usize, Ghost(text): Ghost<Seq<char>>) -> (r:
    Option<(ModifierType, Reading)>)
    requires
        holds_ascii(bytes@, text),
        from <= to <= bytes@.len(),
    ensures
        match r {
            Some((modifier_type, reading)) => {
                let token = text.subrange(from as int, to as int);
                &&& is_coordinate_token(token)
                &&& modifier_type == prefix_modifier_type(token)
                &&& reading.reads(prefix_magnitude(token))
            },
            None => !is_coordinate_token(text.subrange(from as int, to as int)),
        },
{
    if from == to {
        return None;
    }
    let ghost token = text.subrange(from as int, to as int);
    let first = bytes[from];
    assert(token[0] == text[from as int]);
    let modifier_type = if first == PLUS {
        ModifierType::Increment
    } else if first == MINUS {
        ModifierType::Decrement
    } else {
        ModifierType::Override
    };
    let start: usize = if first == PLUS || first == MINUS {
        from + 1
    } else {
        from
    };
    assert(prefix_magnitude(token) =~= text.subrange(start as int, to as int));
    match read_decimal(bytes, start, to, Ghost(text)) {
        Some(reading) => Some((modifier_type, reading)),
        None => None,
    }
}

/// A position in the colour space and the way of applying it.
#[derive(Clone, Copy, Debug, PartialEq, Eq, Structural)]
pub struct ColorSpaceCoordinates {
    pub modifier_type: CoordinateModifierType,
    pub x: Coordinate,
    pub y: Coordinate,
}

impl ColorSpaceCoordinates {
    /// Reads two coordinates with a comma between them, each with an
    /// optional sign.
    pub fn from_str(s: &str) -> (r: Result<Self, ParseError>)
        ensures
            match r {
                Ok(v) => parsed_coordinates(s@) == Ok::<Self, Seq<char>>(v),
                Err(e) => parsed_coordinates(s@) == Err::<Self, Seq<char>>(e@),
            },
    {
        if !s.is_ascii() {
            proof {
                lemma_parsed_coordinates_is_ascii(s@);
            }
            return Err(notation_error());
        }
        proof {
            is_ascii_spec_bytes(s);
        }
        let bytes = s.as_bytes();
        let n = bytes.len();
        let ghost text = s@;
        let comma = find_byte(bytes, 0, n, COMMA, Ghost(text));
        proof {
            lemma_position_of(text, ',', comma as int);
        }
        if comma == n {
            return Err(notation_error());
        }
        let ghost left = text.take(comma as int);
        let ghost right = text.skip(comma + 1);
        assert(left =~= text.subrange(0, comma as int));
        assert(right =~= text.subrange(comma + 1, n as int));
        let second = find_byte(bytes, comma + 1, n, COMMA, Ghost(text));
        proof {
            assert forall|j: int| 0 <= j < second - comma - 1 implies right[j] != ',' by {
                assert(right[j] == text[j + comma + 1]);
            }
            if second < n {
                assert(right[second - comma - 1] == text[second as int]);
            }
            lemma_position_of(right, ',', second - comma - 1);
        }
        if second < n {
            return Err(notation_error());
        }
        let (x_type, x) = match read_coordinate(bytes, 0, comma, Ghost(text)) {
            Some(v) => v,
            None => {
                return Err(notation_error());
            },
        };
        let (y_type, y) = match read_coordinate(bytes, comma + 1, n, Ghost(text)) {
            Some(v) => v,
            None => {
                return Err(notation_error());
            },
        };
        let joint = match reconcile(x_type, y_type) {
            Some(v) => v,
            None => {
                return Err(
                    ParseError::new("Either both coordinates must have a prefix or neither of them."),
                );
            },
        };
        let bound: u32 = match joint {
            CoordinateModifierType::Override => UNITS_PER_ONE,
            _ => UNITS_PER_ONE / 2,
        };
        proof {
            lemma_reading_at_most(x, prefix_magnitude(left), coordinate_parts(joint));
            lemma_reading_at_most(y, prefix_magnitude(right), coordinate_parts(joint));
        }
        if x.is_within(bound) && y.is_within(bound) {
            Ok(
                Self {
                    modifier_type: joint,
                    x: Coordinate { billionths: x.units },
                    y: Coordinate { billionths: y.units },
                },
            )
        } else {
            match joint {
                CoordinateModifierType::Override => Err(
                    ParseError::new("The coordinates must be between 0 and 1."),
                ),
                _ => Err(
                    ParseError::new(
                        "The coordinates must be between 0 and 0.5 if they have a prefix.",
                    ),
                ),
            }
        }
    }
}

/// What a number written in the usual decimal notation stands for: itself
/// if it is at most `max`, and nothing if it is more. Alone it replaces,
/// behind a plus sign it adds, behind a minus sign it subtracts.
pub proof fn lemma_integer_notation(n: nat, max: nat)
    ensures
        prefixed_integer(decimal_digits(n), max) == if n <= max {
            Some((ModifierType::Override, n))
        } else {
            None
        },
        prefixed_integer(seq!['+'] + decimal_digits(n), max) == if n <= max {
            Some((ModifierType::Increment, n))
        } else {
            None
        },
        prefixed_integer(seq!['-'] + decimal_digits(n), max) == if n <= max {
            Some((ModifierType::Decrement, n))
        } else {
            None
        },
{
    let d = decimal_digits(n);
    lemma_decimal_digits(n);
    lemma_decimal_digits_literal(n, max);
    assert(is_digit(d[0]));
    assert(prefix_magnitude(d) == d);
    let p = seq!['+'] + d;
    assert(p[0] == '+');
    assert(prefix_magnitude(p) =~= d);
    let m = seq!['-'] + d;
    assert(m[0] == '-');
    assert(prefix_magnitude(m) =~= d);
}

/// A percentage written in the usual decimal notation stands for its
/// rescaled byte: alone it replaces, behind a plus sign it adds, behind a
/// minus sign it subtracts.
pub proof fn lemma_percentage_notation(percent: nat)
    requires
        percent <= 100,
    ensures
        prefixed_percentage(decimal_digits(percent)) == Some(
            (ModifierType::Override, percentage_to_byte(percent) as u8),
        ),
        prefixed_percentage(seq!['+'] + decimal_digits(percent)) == Some(
            (ModifierType::Increment, percentage_to_byte(percent) as u8),
        ),
        prefixed_percentage(seq!['-'] + decimal_digits(percent)) == Some(
            (ModifierType::Decrement, percentage_to_byte(percent) as u8),
        ),
{
    lemma_integer_notation(percent, 100);
}

/// A number above 100 is no percentage, with a sign or without.
pub proof fn lemma_percentage_out_of_bound(n: nat)
    requires
        n > 100,
    ensures
        prefixed_percentage(decimal_digits(n)) is None,
        prefixed_percentage(seq!['+'] + decimal_digits(n)) is None,
        prefixed_percentage(seq!['-'] + decimal_digits(n)) is None,
{
    lemma_integer_notation(n, 100);
}

/// A number of 16 bits written in the usual decimal notation stands for
/// itself, and a greater number for nothing.
pub proof fn lemma_word_notation(n: nat)
    ensures
        prefixed_word(decimal_digits(n)) == if n <= 0xffff {
            Some((ModifierType::Override, n as u16))
        } else {
            None
        },
        prefixed_word(seq!['+'] + decimal_digits(n)) == if n <= 0xffff {
            Some((ModifierType::Increment, n as u16))
        } else {
            None
        },
        prefixed_word(seq!['-'] + decimal_digits(n)) == if n <= 0xffff {
            Some((ModifierType::Decrement, n as u16))
        } else {
            None
        },
{
    lemma_integer_notation(n, 0xffff);
}

/// A text whose number is written with anything but digits, behind at most
/// one plus sign, stands for no integer.
pub proof fn lemma_malformed_integer(s: Seq<char>, max: nat)
    requires
        s.len() == 0 || !is_unsigned_literal(prefix_magnitude(s)),
    ensures
        prefixed_integer(s, max) is None,
        prefixed_percentage(s) is None,
        prefixed_word(s) is None,
{
}

} // verus!
