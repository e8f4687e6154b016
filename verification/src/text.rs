//! Small verified helpers on text: comparing string slices and writing
//! numbers in decimal.

use vstd::prelude::*;
use vstd::string::*;

verus! {

/// Whether two string slices hold the same characters.
pub fn str_eq(a: &str, b: &str) -> (same: bool)
    ensures
        same == (a@ == b@),
{
    let x = a.as_bytes();
    let y = b.as_bytes();
    proof {
        vstd::utf8::encode_utf8_decode_utf8(a@);
        vstd::utf8::encode_utf8_decode_utf8(b@);
    }
    if x.len() != y.len() {
        return false;
    }
    let mut i: usize = 0;
    while i < x.len()
        invariant
            i <= x.len(),
            x.len() == y.len(),
            x@ == a.spec_bytes(),
            y@ == b.spec_bytes(),
            forall|j: int| 0 <= j < i ==> x@[j] == y@[j],
        decreases x.len() - i,
    {
        if x[i] != y[i] {
            return false;
        }
        i += 1;
    }
    assert(x@ =~= y@);
    true
}

/// The character that writes the digit `d`.
pub open spec fn digit_char(d: nat) -> char
    recommends
        d < 10,
{
    if d == 0 {
        '0'
    } else if d == 1 {
        '1'
    } else if d == 2 {
        '2'
    } else if d == 3 {
        '3'
    } else if d == 4 {
        '4'
    } else if d == 5 {
        '5'
    } else if d == 6 {
        '6'
    } else if d == 7 {
        '7'
    } else if d == 8 {
        '8'
    } else {
        '9'
    }
}

/// The decimal notation of `n`, without sign or leading zeros.
pub open spec fn decimal(n: nat) -> Seq<char>
    decreases n,
{
    if n < 10 {
        seq![digit_char(n)]
    } else {
        decimal(n / 10).push(digit_char(n % 10))
    }
}

fn digit_str(d: usize) -> (s: &'static str)
    requires
        d < 10,
    ensures
        s@ == seq![digit_char(d as nat)],
{
    proof {
        reveal_strlit("0");
        reveal_strlit("1");
        reveal_strlit("2");
        reveal_strlit("3");
        reveal_strlit("4");
        reveal_strlit("5");
        reveal_strlit("6");
        reveal_strlit("7");
        reveal_strlit("8");
        reveal_strlit("9");
    }
    let s = if d == 0 {
        "0"
    } else if d == 1 {
        "1"
    } else if d == 2 {
        "2"
    } else if d == 3 {
        "3"
    } else if d == 4 {
        "4"
    } else if d == 5 {
        "5"
    } else if d == 6 {
        "6"
    } else if d == 7 {
        "7"
    } else if d == 8 {
        "8"
    } else {
        "9"
    };
    assert(s@ =~= seq![digit_char(d as nat)]);
    s
}

/// Writes `n` in decimal.
pub fn decimal_string(n: usize) -> (s: String)
    ensures
        s@ == decimal(n as nat),
    decreases n,
{
    if n < 10 {
        String::from_str(digit_str(n))
    } else {
        let head = decimal_string(n / 10);
        let s = head.concat(digit_str(n % 10));
        assert(s@ =~= decimal(n as nat));
        s
    }
}

/// Two texts, one behind the other.
pub fn join(a: &str, b: &str) -> (text: String)
    ensures
        text@ == a@ + b@,
{
    String::from_str(a).concat(b)
}

/// Three texts, one behind the other.
pub fn join3(a: &str, b: &str, c: &str) -> (text: String)
    ensures
        text@ == a@ + b@ + c@,
{
    String::from_str(a).concat(b).concat(c)
}

/// The views of the texts in a list of pairs, in order.
pub open spec fn pairs_view(pairs: Seq<(String, String)>) -> Seq<(Seq<char>, Seq<char>)> {
    pairs.map_values(|p: (String, String)| (p.0@, p.1@))
}

/// The view of a text that may be absent.
pub open spec fn opt_view(text: Option<String>) -> Option<Seq<char>> {
    match text {
        Some(t) => Some(t@),
        None => None,
    }
}

/// What `str::to_lowercase` makes of a text: its lowercase form by the rules
/// of Unicode.
pub uninterp spec fn lowercase(text: Seq<char>) -> Seq<char>;

/// Whether `char::is_whitespace` holds of a character: Unicode counts it as
/// `White_Space`.
pub uninterp spec fn is_whitespace(c: char) -> bool;

/// A text in the form in which names are compared: in lowercase, and without
/// whitespace.
pub open spec fn normalized(text: Seq<char>) -> Seq<char> {
    lowercase(text).filter(|c: char| !is_whitespace(c))
}

/// `String::push` puts one character behind the others.
pub assume_specification[ String::push ](text: &mut String, c: char)
    ensures
        final(text)@ == old(text)@.push(c),
;

/// Calls `str::to_lowercase`, which gives the lowercase form of the text as a
/// new `String`. The result depends on the text alone.
#[verifier::external_body]
fn to_lowercase(text: &str) -> (lower: String)
    ensures
        lower@ == lowercase(text@),
{
    text.to_lowercase()
}

/// Calls `char::is_whitespace`, which says whether Unicode counts the
/// character as `White_Space`. The result depends on the character alone.
#[verifier::external_body]
fn char_is_whitespace(c: char) -> (space: bool)
    ensures
        space == is_whitespace(c),
{
    c.is_whitespace()
}

/// A text without the characters of it that are whitespace.
pub fn without_whitespace(text: &str) -> (kept: String)
    ensures
        kept@ == text@.filter(|c: char| !is_whitespace(c)),
{
    let n = text.unicode_len();
    let mut kept = String::new();
    let mut i: usize = 0;
    assert(text@.take(0) =~= Seq::<char>::empty());
    while i < n
        invariant
            i <= n,
            n == text@.len(),
            kept@ == text@.take(i as int).filter(|c: char| !is_whitespace(c)),
        decreases n - i,
    {
        let c = text.get_char(i);
        proof {
            assert(text@.take(i + 1).drop_last() =~= text@.take(i as int));
            assert(text@.take(i + 1).last() == c);
            reveal(Seq::filter);
        }
        if !char_is_whitespace(c) {
            kept.push(c);
        }
        i += 1;
    }
    assert(text@.take(n as int) =~= text@);
    kept
}

/// A text in the form in which names are compared: in lowercase, and without
/// whitespace.
pub fn normalize(text: &str) -> (norm: String)
    ensures
        norm@ == normalized(text@),
{
    let lower = to_lowercase(text);
    without_whitespace(lower.as_str())
}

/// The character that writes the hexadecimal digit `d`, in lowercase.
pub open spec fn hex_digit(d: u128) -> char
    recommends
        d < 16,
{
    if d < 10 {
        digit_char(d as nat)
    } else if d == 10 {
        'a'
    } else if d == 11 {
        'b'
    } else if d == 12 {
        'c'
    } else if d == 13 {
        'd'
    } else if d == 14 {
        'e'
    } else {
        'f'
    }
}

/// The hexadecimal digits of `value` from place `from` up to place `to`; the
/// place 0 is that of the highest four bits, the place 31 that of the lowest.
pub open spec fn hex_run(value: u128, from: int, to: int) -> Seq<char> {
    Seq::new(
        (to - from) as nat,
        |i: int| hex_digit((value >> ((4 * (31 - (from + i))) as u128)) & 0xf),
    )
}

/// The text of a UUID with the 128-bit value `value`: its 32 hexadecimal
/// digits in lowercase, highest first, in groups of 8, 4, 4, 4 and 12 with a
/// hyphen between them.
pub open spec fn uuid_text(value: u128) -> Seq<char> {
    hex_run(value, 0, 8) + seq!['-'] + hex_run(value, 8, 12) + seq!['-'] + hex_run(value, 12, 16)
        + seq!['-'] + hex_run(value, 16, 20) + seq!['-'] + hex_run(value, 20, 32)
}

/// Calls `Uuid::from_u128` and then the `to_string` that `Uuid` has from its
/// `Display`. The first takes the value's bytes from the highest down; the
/// second writes them as hexadecimal digits in lowercase, in groups of 8, 4,
/// 4, 4 and 12 with a hyphen between them.
#[verifier::external_body]
pub(crate) fn uuid_string(value: u128) -> (text: String)
    ensures
        text@ == uuid_text(value),
{
    uuid::Uuid::from_u128(value).to_string()
}

} // verus!
