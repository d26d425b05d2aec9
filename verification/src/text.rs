use vstd::prelude::*;
use vstd::string::*;
use vstd::utf8::*;

verus! {

/// The byte of the plus sign in ASCII.
pub const PLUS: u8 = 43;

/// The byte of the minus sign in ASCII.
pub const MINUS: u8 = 45;

/// The byte of the comma in ASCII.
pub const COMMA: u8 = 44;

/// The byte of the decimal point in ASCII.
pub const POINT: u8 = 46;

/// The byte of the number sign `#` in ASCII.
pub const NUMBER_SIGN: u8 = 35;

/// The byte of the digit 0 in ASCII; the other digits follow it in order.
pub const DIGIT_0: u8 = 48;

/// The byte of the digit 9 in ASCII.
pub const DIGIT_9: u8 = 57;

/// The byte of the small letter a in ASCII.
pub const SMALL_A: u8 = 97;

/// The byte of the small letter f in ASCII.
pub const SMALL_F: u8 = 102;

/// The byte of the capital letter A in ASCII.
pub const CAPITAL_A: u8 = 65;

/// The byte of the capital letter F in ASCII.
pub const CAPITAL_F: u8 = 70;

/// The lowercase form of a text, as the standard library computes it from
/// the Unicode character tables.
pub uninterp spec fn lowercase(s: Seq<char>) -> Seq<char>;

/// Calls `str::to_lowercase`. Nothing is proved of the result: the contract
/// only gives it the name [`lowercase`], so that equal texts are known to
/// have equal lowercase forms.
#[verifier::external_body]
pub(crate) fn to_lowercase(s: &str) -> (r: String)
    ensures
        r@ == lowercase(s@),
{
    s.to_lowercase()
}

/// The texts of a list of string slices, in order.
pub open spec fn words_of(list: Seq<&'static str>) -> Seq<Seq<char>> {
    Seq::new(list.len(), |i: int| list[i]@)
}

/// The texts of a list of strings, in order.
pub open spec fn texts(list: Vec<String>) -> Seq<Seq<char>> {
    Seq::new(list@.len(), |i: int| list@[i]@)
}

/// The text of a string that may be absent.
pub open spec fn option_text(s: Option<String>) -> Option<Seq<char>> {
    match s {
        Some(s) => Some(s@),
        None => None,
    }
}

/// The texts of a list of strings that may be absent.
pub open spec fn option_texts(list: Option<Vec<String>>) -> Option<Seq<Seq<char>>> {
    match list {
        Some(list) => Some(texts(list)),
        None => None,
    }
}

/// The text of a string that may be absent, under a setting that may be
/// absent too.
pub open spec fn option_option_text(s: Option<Option<String>>) -> Option<Option<Seq<char>>> {
    match s {
        Some(s) => Some(option_text(s)),
        None => None,
    }
}

/// Two texts with the same UTF-8 encoding hold the same characters.
pub proof fn lemma_same_bytes_same_chars(a: Seq<char>, b: Seq<char>)
    requires
        encode_utf8(a) == encode_utf8(b),
    ensures
        a == b,
{
    encode_utf8_decode_utf8(a);
    encode_utf8_decode_utf8(b);
}

/// A copy of a list of strings.
pub fn clone_texts(list: &Vec<String>) -> (r: Vec<String>)
    ensures
        texts(r) == texts(*list),
{
    let mut copy: Vec<String> = Vec::new();
    let mut i: usize = 0;
    while i < list.len()
        invariant
            i <= list@.len(),
            copy@.len() == i,
            forall|j: int| 0 <= j < i ==> copy@[j]@ == list@[j]@,
        decreases list@.len() - i,
    {
        copy.push(list[i].clone());
        i += 1;
    }
    assert(texts(copy) =~= texts(*list));
    copy
}

/// Whether two string slices hold the same characters.
pub fn equal(a: &str, b: &str) -> (r: bool)
    ensures
        r == (a@ == b@),
{
    let x = a.as_bytes();
    let y = b.as_bytes();
    if x.len() != y.len() {
        return false;
    }
    let mut i: usize = 0;
    while i < x.len()
        invariant
            x@ == encode_utf8(a@),
            y@ == encode_utf8(b@),
            x@.len() == y@.len(),
            i <= x@.len(),
            forall|j: int| 0 <= j < i ==> x@[j] == y@[j],
        decreases x@.len() - i,
    {
        if x[i] != y[i] {
            return false;
        }
        i += 1;
    }
    proof {
        assert(x@ =~= y@);
        lemma_same_bytes_same_chars(a@, b@);
    }
    true
}

} // verus!
