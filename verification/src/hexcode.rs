//! Hex coding of checksums, with a full specification.
//!
//! The cache stores a SHA-256 digest as a 64-character lowercase hex string.
//! `hex_of` says mathematically what that string is; the two trusted wrappers
//! tie the outside coder to it, and the lemmas here give the round trip that
//! the cache's contracts need.

use vstd::prelude::*;

verus! {

/// The sixteen digit characters, lowercase.
pub open spec fn hex_digit(n: u8) -> char
    recommends
        n < 16,
{
    if n == 0 { '0' }
    else if n == 1 { '1' }
    else if n == 2 { '2' }
    else if n == 3 { '3' }
    else if n == 4 { '4' }
    else if n == 5 { '5' }
    else if n == 6 { '6' }
    else if n == 7 { '7' }
    else if n == 8 { '8' }
    else if n == 9 { '9' }
    else if n == 10 { 'a' }
    else if n == 11 { 'b' }
    else if n == 12 { 'c' }
    else if n == 13 { 'd' }
    else if n == 14 { 'e' }
    else { 'f' }
}

/// A character that spells a hex digit, in either case.
pub open spec fn is_hex_char(c: char) -> bool {
    ('0' <= c && c <= '9') || ('a' <= c && c <= 'f') || ('A' <= c && c <= 'F')
}

/// The value a hex digit character spells.
pub open spec fn hex_val(c: char) -> u8
    recommends
        is_hex_char(c),
{
    if '0' <= c && c <= '9' {
        (c as u8 - '0' as u8) as u8
    } else if 'a' <= c && c <= 'f' {
        (c as u8 - 'a' as u8 + 10) as u8
    } else if 'A' <= c && c <= 'F' {
        (c as u8 - 'A' as u8 + 10) as u8
    } else {
        0
    }
}

/// The same character with an uppercase hex letter folded to lowercase.
pub open spec fn lower_hex_char(c: char) -> char {
    if c == 'A' { 'a' }
    else if c == 'B' { 'b' }
    else if c == 'C' { 'c' }
    else if c == 'D' { 'd' }
    else if c == 'E' { 'e' }
    else if c == 'F' { 'f' }
    else { c }
}

/// Character-wise case folding of hex letters.
pub open spec fn lower_hex_seq(s: Seq<char>) -> Seq<char> {
    s.map_values(|c: char| lower_hex_char(c))
}

/// The lowercase hex spelling of a byte string: two digits per byte, high
/// nibble first.
pub open spec fn hex_of(bs: Seq<u8>) -> Seq<char> {
    Seq::new(bs.len() * 2, |i: int|
        if i % 2 == 0 {
            hex_digit((bs[i / 2] / 16) as u8)
        } else {
            hex_digit((bs[i / 2] % 16) as u8)
        })
}

/// An even-length string of hex digit characters: exactly what decodes.
pub open spec fn is_hex_seq(s: Seq<char>) -> bool {
    s.len() % 2 == 0 && (forall|i: int| 0 <= i < s.len() ==> is_hex_char(#[trigger] s[i]))
}

/// The bytes an even-length hex string spells.
pub open spec fn spec_hex_bytes(s: Seq<char>) -> Seq<u8>
    recommends
        is_hex_seq(s),
{
    Seq::new(s.len() / 2, |i: int| (16 * hex_val(s[2 * i]) + hex_val(s[2 * i + 1])) as u8)
}

/// Digit-level facts: spelling a nibble and reading it back round-trips, the
/// spelling is a hex character, and it is already lowercase.
pub proof fn lemma_hex_digit_val(n: u8)
    requires
        n < 16,
    ensures
        hex_val(hex_digit(n)) == n,
        is_hex_char(hex_digit(n)),
        lower_hex_char(hex_digit(n)) == hex_digit(n),
{
}

/// Reading a hex character and spelling it again gives its lowercase form.
pub proof fn lemma_hex_char_round(c: char)
    requires
        is_hex_char(c),
    ensures
        hex_val(c) < 16,
        hex_digit(hex_val(c)) == lower_hex_char(c),
{
}

/// Two byte strings with the same hex spelling are the same bytes.
pub proof fn lemma_hex_of_injective(a: Seq<u8>, b: Seq<u8>)
    requires
        hex_of(a) == hex_of(b),
    ensures
        a == b,
{
    assert(hex_of(a).len() == a.len() * 2);
    assert(hex_of(b).len() == b.len() * 2);
    assert(a.len() == b.len());
    assert forall|i: int| 0 <= i < a.len() implies a[i] == b[i] by {
        assert((2 * i) / 2 == i && (2 * i) % 2 == 0);
        assert((2 * i + 1) / 2 == i && (2 * i + 1) % 2 == 1);
        let ha = (a[i] / 16) as u8;
        let la = (a[i] % 16) as u8;
        let hb = (b[i] / 16) as u8;
        let lb = (b[i] % 16) as u8;
        assert(hex_of(a)[2 * i] == hex_digit(ha));
        assert(hex_of(b)[2 * i] == hex_digit(hb));
        assert(hex_of(a)[2 * i + 1] == hex_digit(la));
        assert(hex_of(b)[2 * i + 1] == hex_digit(lb));
        assert(hex_digit(ha) == hex_digit(hb));
        assert(hex_digit(la) == hex_digit(lb));
        lemma_hex_digit_val(ha);
        lemma_hex_digit_val(la);
        lemma_hex_digit_val(hb);
        lemma_hex_digit_val(lb);
        assert(ha == hb && la == lb);
        assert(a[i] == ha * 16 + la && b[i] == hb * 16 + lb);
    };
    assert(a =~= b);
}

/// A hex spelling is all lowercase hex characters, so folding case is a
/// no-op on it and it decodes.
pub proof fn lemma_hex_of_is_lower_hex(bs: Seq<u8>)
    ensures
        is_hex_seq(hex_of(bs)),
        lower_hex_seq(hex_of(bs)) == hex_of(bs),
{
    assert forall|i: int| 0 <= i < hex_of(bs).len() implies is_hex_char(#[trigger] hex_of(bs)[i])
        && lower_hex_char(hex_of(bs)[i]) == hex_of(bs)[i] by {
        if i % 2 == 0 {
            lemma_hex_digit_val((bs[i / 2] / 16) as u8);
        } else {
            lemma_hex_digit_val((bs[i / 2] % 16) as u8);
        }
    };
    assert(lower_hex_seq(hex_of(bs)) =~= hex_of(bs));
}

/// Reading an even-length hex string and spelling the bytes again gives the
/// string back, up to case.
pub proof fn lemma_hex_round_trip(s: Seq<char>)
    requires
        is_hex_seq(s),
    ensures
        spec_hex_bytes(s).len() * 2 == s.len(),
        hex_of(spec_hex_bytes(s)) == lower_hex_seq(s),
{
    let bs = spec_hex_bytes(s);
    assert forall|j: int| 0 <= j < hex_of(bs).len() implies
        #[trigger] hex_of(bs)[j] == lower_hex_seq(s)[j] by {
        let i = j / 2;
        assert(0 <= i < bs.len());
        let hi = hex_val(s[2 * i]);
        let lo = hex_val(s[2 * i + 1]);
        lemma_hex_char_round(s[2 * i]);
        lemma_hex_char_round(s[2 * i + 1]);
        assert(bs[i] == (16 * hi + lo) as u8);
        assert((16 * hi + lo) / 16 == hi && (16 * hi + lo) % 16 == lo) by (nonlinear_arith)
            requires
                hi < 16,
                lo < 16,
        ;
        if j % 2 == 0 {
            assert(j == 2 * i);
            assert(hex_of(bs)[j] == hex_digit((bs[i] / 16) as u8));
        } else {
            assert(j == 2 * i + 1);
            assert(hex_of(bs)[j] == hex_digit((bs[i] % 16) as u8));
        }
    };
    assert(hex_of(bs) =~= lower_hex_seq(s));
}

/// Relies on `hex::encode`: two lowercase hex digits per input byte, high
/// nibble first.
#[verifier::external_body]
pub(crate) fn hex_encode(data: &[u8]) -> (r: String)
    ensures
        r@ == hex_of(data@),
{
    hex::encode(data)
}

/// Relies on `hex::decode`: it accepts exactly the even-length strings of
/// hex digit characters of either case, and yields the bytes they spell.
#[verifier::external_body]
pub(crate) fn hex_decode(s: &str) -> (r: Option<Vec<u8>>)
    ensures
        r is Some <==> is_hex_seq(s@),
        r matches Some(v) ==> hex_of(v@) == lower_hex_seq(s@),
{
    hex::decode(s).ok()
}

} // verus!
