//! Character-level string helpers shared by the translation code, with their
//! specifications over `Seq<char>`.

use vstd::prelude::*;

verus! {

/// The characters of a string, as a vector.
pub fn chars_of(s: &str) -> (v: Vec<char>)
    ensures
        v@ == s@,
{
    broadcast use vstd::string::group_string_axioms;
    let mut v: Vec<char> = Vec::new();
    for c in it: s.chars()
        invariant
            it.seq() == s@,
            v@ == it.seq().take(it.index() as int),
    {
        v.push(c);
    }
    v
}

/// Append one character to a string (`String::push`).
#[verifier::external_body]
pub fn push_char(s: &mut String, c: char)
    ensures
        final(s)@ == old(s)@.push(c),
{
    s.push(c)
}

/// What `str::to_uppercase` returns for a string: its Unicode uppercase mapping.
pub uninterp spec fn spec_to_uppercase(s: Seq<char>) -> Seq<char>;

/// `str::to_uppercase`. Its result is the Unicode uppercase mapping of the
/// argument, a function of the argument alone; which mapping that is (the
/// Unicode tables) is not stated here.
#[verifier::external_body]
pub fn to_uppercase(s: &str) -> (r: String)
    ensures
        r@ == spec_to_uppercase(s@),
{
    s.to_uppercase()
}

/// What `String::from_utf8_lossy` decodes a byte sequence to.
pub uninterp spec fn spec_utf8_lossy(bytes: Seq<u8>) -> Seq<char>;

/// `String::from_utf8_lossy`, made owned. The decoded text is a function of the
/// bytes alone; valid UTF-8 decodes exactly, as documented. How invalid
/// sequences are replaced by U+FFFD is not stated here.
#[verifier::external_body]
pub fn utf8_lossy(bytes: &[u8]) -> (r: String)
    ensures
        r@ == spec_utf8_lossy(bytes@),
        vstd::utf8::valid_utf8(bytes@) ==> r@ == vstd::utf8::decode_utf8(bytes@),
{
    String::from_utf8_lossy(bytes).into_owned()
}

/// The text of received bytes: exactly their UTF-8 decoding when they are
/// valid UTF-8, otherwise what `String::from_utf8_lossy` makes of them.
pub open spec fn lossy_text(bytes: Seq<u8>) -> Seq<char> {
    if vstd::utf8::valid_utf8(bytes) {
        vstd::utf8::decode_utf8(bytes)
    } else {
        spec_utf8_lossy(bytes)
    }
}

/// Decode received bytes as lossy UTF-8: valid UTF-8 decodes exactly, invalid
/// sequences become U+FFFD.
pub fn decode_lossy(bytes: &[u8]) -> (r: String)
    ensures
        r@ == lossy_text(bytes@),
        r@ == spec_utf8_lossy(bytes@),
{
    utf8_lossy(bytes)
}

/// ASCII lowercase of one character; every other character is unchanged.
pub open spec fn ascii_lower(c: char) -> char {
    if 'A' <= c && c <= 'Z' {
        ((c as u32) + 32) as char
    } else {
        c
    }
}

/// ASCII lowercase of every character of a string.
pub open spec fn lower_seq(s: Seq<char>) -> Seq<char> {
    s.map_values(|c: char| ascii_lower(c))
}

/// Two strings are equal up to ASCII case: `str::eq_ignore_ascii_case`, which
/// its documentation defines as `to_ascii_lowercase(a) == to_ascii_lowercase(b)`.
pub open spec fn spec_eq_ignore_ascii_case(a: Seq<char>, b: Seq<char>) -> bool {
    lower_seq(a) == lower_seq(b)
}

/// ASCII lowercase of one character.
pub fn to_ascii_lower(c: char) -> (r: char)
    ensures
        r == ascii_lower(c),
{
    if 'A' <= c && c <= 'Z' {
        let b: u8 = c as u8;
        (b + 32) as char
    } else {
        c
    }
}

/// Compare two strings ignoring ASCII case.
pub fn eq_ignore_ascii_case(a: &str, b: &str) -> (r: bool)
    ensures
        r == spec_eq_ignore_ascii_case(a@, b@),
{
    let va = chars_of(a);
    let vb = chars_of(b);
    if va.len() != vb.len() {
        proof {
            assert(lower_seq(a@).len() != lower_seq(b@).len());
        }
        return false;
    }
    let n = va.len();
    for i in 0..n
        invariant
            n == va@.len(),
            n == vb@.len(),
            va@ == a@,
            vb@ == b@,
            forall|j: int| 0 <= j < i ==> ascii_lower(va@[j]) == ascii_lower(vb@[j]),
    {
        if to_ascii_lower(va[i]) != to_ascii_lower(vb[i]) {
            proof {
                assert(lower_seq(a@)[i as int] != lower_seq(b@)[i as int]);
            }
            return false;
        }
    }
    proof {
        assert(lower_seq(a@) =~= lower_seq(b@));
    }
    true
}

/// The decimal digit character for `d < 10`.
pub open spec fn digit_char(d: nat) -> char {
    (('0' as u32) + d) as char
}

/// The decimal representation of a natural number, without sign or leading zeros.
pub open spec fn decimal(n: nat) -> Seq<char>
    decreases n,
{
    if n < 10 {
        seq![digit_char(n)]
    } else {
        decimal(n / 10).push(digit_char(n % 10))
    }
}

/// Format an integer in decimal, as `u64::to_string` does.
pub fn decimal_string(n: u64) -> (s: String)
    ensures
        s@ == decimal(n as nat),
    decreases n,
{
    let d: u8 = (n % 10) as u8;
    let c: char = (48u8 + d) as char;
    if n < 10 {
        let mut s = String::new();
        push_char(&mut s, c);
        proof {
            assert(s@ =~= decimal(n as nat));
        }
        s
    } else {
        let mut s = decimal_string(n / 10);
        push_char(&mut s, c);
        s
    }
}

/// A string literal or other `&str` as an owned `String`.
pub fn owned(s: &str) -> (r: String)
    ensures
        r@ == s@,
{
    String::from_str(s)
}

} // verus!
