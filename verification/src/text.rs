//! Text helpers on bytes: case-folded search, equality and UTF-8 decoding.
//!
//! Header values and media types are ASCII on the wire, so the search works on
//! the UTF-8 bytes of a string and folds only the ASCII letters.

use vstd::prelude::*;
use vstd::utf8::*;

verus! {

/// The ASCII lower-case form of one byte: `A`..=`Z` become `a`..=`z`, every
/// other byte stays as it is.
pub open spec fn lower_byte(b: u8) -> u8 {
    if 0x41 <= b <= 0x5a {
        (b + 0x20) as u8
    } else {
        b
    }
}

/// The byte string with every ASCII upper-case letter folded to lower case.
pub open spec fn lowered(s: Seq<u8>) -> Seq<u8> {
    Seq::new(s.len(), |i: int| lower_byte(s[i]))
}

/// `needle` stands in `hay` at offset `at`.
pub open spec fn occurs_at(hay: Seq<u8>, needle: Seq<u8>, at: int) -> bool {
    &&& 0 <= at
    &&& at + needle.len() <= hay.len()
    &&& forall|j: int| 0 <= j < needle.len() ==> hay[at + j] == #[trigger] needle[j]
}

/// `needle` stands somewhere in `hay`.
pub open spec fn contains(hay: Seq<u8>, needle: Seq<u8>) -> bool {
    exists|at: int| occurs_at(hay, needle, at)
}

/// `hay` begins with `needle`.
pub open spec fn starts_with(hay: Seq<u8>, needle: Seq<u8>) -> bool {
    occurs_at(hay, needle, 0)
}

/// Every byte is a visible ASCII character, a space or a tab.
pub open spec fn visible_ascii(s: Seq<u8>) -> bool {
    forall|i: int| 0 <= i < s.len() ==> is_visible_byte(#[trigger] s[i])
}

/// A visible ASCII character, a space or a tab.
pub open spec fn is_visible_byte(b: u8) -> bool {
    (32 <= b < 127) || b == 9
}

/// The characters that stand for a string of ASCII bytes.
pub open spec fn ascii_chars(s: Seq<u8>) -> Seq<char> {
    Seq::new(s.len(), |i: int| s[i] as char)
}

/// The text that a byte string decodes to: its characters when it is valid
/// UTF-8, and the empty text when it is not.
pub open spec fn text_or_empty(bytes: Seq<u8>) -> Seq<char> {
    if valid_utf8(bytes) {
        decode_utf8(bytes)
    } else {
        Seq::empty()
    }
}

/// Folds one byte to ASCII lower case.
pub fn to_lower(b: u8) -> (r: u8)
    ensures
        r == lower_byte(b),
{
    if b >= 0x41 && b <= 0x5a {
        b + 0x20
    } else {
        b
    }
}

/// Tells whether `needle` stands at offset `at` of `hay` once `hay` is folded
/// to lower case. An offset past the place where `needle` still fits gives
/// `false`.
pub fn matches_at(hay: &[u8], needle: &[u8], at: usize) -> (r: bool)
    ensures
        r == occurs_at(lowered(hay@), needle@, at as int),
{
    if needle.len() > hay.len() || at > hay.len() - needle.len() {
        return false;
    }
    let mut j: usize = 0;
    while j < needle.len()
        invariant
            j <= needle@.len(),
            at + needle@.len() <= hay@.len() <= usize::MAX,
            forall|k: int| 0 <= k < j ==> lowered(hay@)[at + k] == #[trigger] needle@[k],
        decreases needle@.len() - j,
    {
        if to_lower(hay[at + j]) != needle[j] {
            return false;
        }
        j += 1;
    }
    true
}

/// Tells whether `needle` stands somewhere in `hay` once `hay` is folded to
/// lower case.
pub fn contains_lowered(hay: &[u8], needle: &[u8]) -> (r: bool)
    ensures
        r == contains(lowered(hay@), needle@),
{
    if needle.len() > hay.len() {
        return false;
    }
    let last: usize = hay.len() - needle.len();
    let mut at: usize = 0;
    while at < last
        invariant
            at <= last,
            last == hay@.len() - needle@.len(),
            forall|k: int| 0 <= k < at ==> !occurs_at(lowered(hay@), needle@, k),
        decreases last - at,
    {
        if matches_at(hay, needle, at) {
            return true;
        }
        at += 1;
    }
    matches_at(hay, needle, last)
}

/// Tells whether `hay` begins with `needle` once `hay` is folded to lower
/// case.
pub fn starts_with_lowered(hay: &[u8], needle: &[u8]) -> (r: bool)
    ensures
        r == starts_with(lowered(hay@), needle@),
{
    matches_at(hay, needle, 0)
}

/// Tells whether `hay`, once it is folded to lower case, is `folded`.
pub fn folds_to(hay: &[u8], folded: &[u8]) -> (r: bool)
    ensures
        r == (lowered(hay@) == folded@),
{
    if hay.len() != folded.len() {
        return false;
    }
    let r = matches_at(hay, folded, 0);
    proof {
        if r {
            assert(lowered(hay@) =~= folded@);
        }
    }
    r
}

/// Tells whether two byte strings are equal.
pub fn same_bytes(a: &[u8], b: &[u8]) -> (r: bool)
    ensures
        r == (a@ == b@),
{
    if a.len() != b.len() {
        return false;
    }
    let mut i: usize = 0;
    while i < a.len()
        invariant
            i <= a@.len(),
            a@.len() == b@.len(),
            forall|k: int| 0 <= k < i ==> a@[k] == b@[k],
        decreases a@.len() - i,
    {
        if a[i] != b[i] {
            return false;
        }
        i += 1;
    }
    assert(a@ =~= b@);
    true
}

/// Tells whether two strings hold the same characters.
pub fn same_text(a: &str, b: &str) -> (r: bool)
    ensures
        r == (a@ == b@),
{
    let r = same_bytes(a.as_bytes(), b.as_bytes());
    proof {
        if r {
            encode_utf8_decode_utf8(a@);
            encode_utf8_decode_utf8(b@);
        }
    }
    r
}

/// Tells whether every byte is a visible ASCII character, a space or a tab.
pub fn is_visible_ascii(s: &[u8]) -> (r: bool)
    ensures
        r == visible_ascii(s@),
{
    let mut i: usize = 0;
    while i < s.len()
        invariant
            i <= s@.len(),
            forall|k: int| 0 <= k < i ==> is_visible_byte(#[trigger] s@[k]),
        decreases s@.len() - i,
    {
        let b: u8 = s[i];
        if !((b >= 32 && b < 127) || b == 9) {
            return false;
        }
        i += 1;
    }
    true
}

/// A byte string without upper-case letters stays as it is when it is
/// folded, and so it holds itself.
pub proof fn lemma_lower_case_holds_itself(s: Seq<u8>)
    requires
        forall|i: int| 0 <= i < s.len() ==> !(0x41 <= #[trigger] s[i] <= 0x5a),
    ensures
        lowered(s) == s,
        contains(lowered(s), s),
        starts_with(lowered(s), s),
{
    assert(occurs_at(s, s, 0));
}

/// A string of ASCII bytes is valid UTF-8 and decodes to its own characters.
pub proof fn lemma_ascii_is_utf8(s: Seq<u8>)
    requires
        forall|i: int| 0 <= i < s.len() ==> #[trigger] s[i] < 128,
    ensures
        valid_utf8(s),
        decode_utf8(s) == ascii_chars(s),
{
    let chars = ascii_chars(s);
    is_ascii_chars_encode_utf8(chars);
    assert(encode_utf8(chars) =~= s);
    encode_utf8_valid_utf8(chars);
    encode_utf8_decode_utf8(chars);
}

/// What `std::str::from_utf8` returns: the text of `bytes`, if and only if
/// they are valid UTF-8, and then the text whose UTF-8 encoding they are.
#[verifier::external_body]
fn str_from_utf8(bytes: &[u8]) -> (r: Option<&str>)
    ensures
        r is Some <==> valid_utf8(bytes@),
        r matches Some(s) ==> s@ == decode_utf8(bytes@),
{
    std::str::from_utf8(bytes).ok()
}

/// Decodes bytes as UTF-8 text, or gives `None` when they are not valid
/// UTF-8.
pub fn decode_text(bytes: &[u8]) -> (r: Option<String>)
    ensures
        r is Some <==> valid_utf8(bytes@),
        r matches Some(s) ==> s@ == decode_utf8(bytes@),
{
    match str_from_utf8(bytes) {
        Some(s) => Some(s.to_owned()),
        None => None,
    }
}

/// Decodes bytes as UTF-8 text; bytes that are not valid UTF-8 give the
/// empty string.
pub fn decode_text_or_empty(bytes: &[u8]) -> (r: String)
    ensures
        r@ == text_or_empty(bytes@),
{
    match decode_text(bytes) {
        Some(s) => s,
        None => String::new(),
    }
}

} // verus!
