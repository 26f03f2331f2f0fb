//! Small string helpers: exact decimal and hexadecimal rendering of
//! integers, and the few string primitives taken on trust from std.

use vstd::prelude::*;
use vstd::string::StringExecFns;

verus! {

/// The decimal digit character for `d`.
pub open spec fn dec_digit_char(d: int) -> char {
    if d == 0 {
        '0'
    } else if d == 1 {
        '1'
    } else if d == 2 {
        '2'
    } else if d == 3 {
        '3'
    } else if d == 4 {
        '4'
    } else if d == 5 {
        '5'
    } else if d == 6 {
        '6'
    } else if d == 7 {
        '7'
    } else if d == 8 {
        '8'
    } else {
        '9'
    }
}

/// The decimal rendering of `v`, most significant digit first, without
/// leading zeros (a single `'0'` for zero).
pub open spec fn spec_dec(v: nat) -> Seq<char>
    decreases v,
{
    if v < 10 {
        seq![dec_digit_char(v as int)]
    } else {
        spec_dec(v / 10) + seq![dec_digit_char((v % 10) as int)]
    }
}

fn dec_digit_str(d: u64) -> (s: &'static str)
    requires
        d < 10,
    ensures
        s@ =~= seq![dec_digit_char(d as int)],
{
    if d == 0 {
        let s = "0";
        proof { reveal_strlit("0"); }
        s
    } else if d == 1 {
        let s = "1";
        proof { reveal_strlit("1"); }
        s
    } else if d == 2 {
        let s = "2";
        proof { reveal_strlit("2"); }
        s
    } else if d == 3 {
        let s = "3";
        proof { reveal_strlit("3"); }
        s
    } else if d == 4 {
        let s = "4";
        proof { reveal_strlit("4"); }
        s
    } else if d == 5 {
        let s = "5";
        proof { reveal_strlit("5"); }
        s
    } else if d == 6 {
        let s = "6";
        proof { reveal_strlit("6"); }
        s
    } else if d == 7 {
        let s = "7";
        proof { reveal_strlit("7"); }
        s
    } else if d == 8 {
        let s = "8";
        proof { reveal_strlit("8"); }
        s
    } else {
        let s = "9";
        proof { reveal_strlit("9"); }
        s
    }
}

/// Render `v` in decimal.
pub fn dec_u64(v: u64) -> (s: String)
    ensures
        s@ == spec_dec(v as nat),
    decreases v,
{
    if v < 10 {
        dec_digit_str(v).to_owned()
    } else {
        let mut s = dec_u64(v / 10);
        s.append(dec_digit_str(v % 10));
        s
    }
}

/// The hexadecimal digit character for `d`, lower case.
pub open spec fn hex_digit_char(d: int) -> char {
    if d < 10 {
        dec_digit_char(d)
    } else if d == 10 {
        'a'
    } else if d == 11 {
        'b'
    } else if d == 12 {
        'c'
    } else if d == 13 {
        'd'
    } else if d == 14 {
        'e'
    } else {
        'f'
    }
}

/// The two-digit hexadecimal rendering of a byte, lower case.
pub open spec fn spec_hex_byte(v: u8) -> Seq<char> {
    seq![hex_digit_char(v as int / 16), hex_digit_char(v as int % 16)]
}

fn hex_digit_str(d: u8) -> (s: &'static str)
    requires
        d < 16,
    ensures
        s@ =~= seq![hex_digit_char(d as int)],
{
    if d < 10 {
        dec_digit_str(d as u64)
    } else if d == 10 {
        let s = "a";
        proof { reveal_strlit("a"); }
        s
    } else if d == 11 {
        let s = "b";
        proof { reveal_strlit("b"); }
        s
    } else if d == 12 {
        let s = "c";
        proof { reveal_strlit("c"); }
        s
    } else if d == 13 {
        let s = "d";
        proof { reveal_strlit("d"); }
        s
    } else if d == 14 {
        let s = "e";
        proof { reveal_strlit("e"); }
        s
    } else {
        let s = "f";
        proof { reveal_strlit("f"); }
        s
    }
}

/// Render a byte as exactly two lower-case hexadecimal digits.
pub fn hex_byte(v: u8) -> (s: String)
    ensures
        s@ == spec_hex_byte(v),
{
    let mut s = hex_digit_str(v / 16).to_owned();
    s.append(hex_digit_str(v % 16));
    s
}

/// Relies on `str` equality: two string slices compare equal exactly when
/// they hold the same characters.
#[verifier::external_body]
pub(crate) fn str_eq(a: &str, b: &str) -> (r: bool)
    ensures
        r <==> a@ =~= b@,
{
    a == b
}

/// `needle` occurs as a contiguous run inside `hay`.
pub open spec fn contains_seq(hay: Seq<char>, needle: Seq<char>) -> bool {
    exists|i: int|
        0 <= i && i + needle.len() <= hay.len() && #[trigger] hay.subrange(i, i + needle.len())
            =~= needle
}

/// Relies on `str::contains`: true exactly when `needle` occurs as a
/// contiguous substring of `hay`.
#[verifier::external_body]
pub(crate) fn contains_sub(hay: &str, needle: &str) -> (r: bool)
    ensures
        r == contains_seq(hay@, needle@),
{
    hay.contains(needle)
}

/// What `str::to_lowercase` returns; a function of the characters alone.
pub uninterp spec fn lower_chars(s: Seq<char>) -> Seq<char>;

/// Relies on `str::to_lowercase`: the result depends only on the input
/// characters, and an empty input stays empty.
#[verifier::external_body]
pub(crate) fn to_lower(s: &str) -> (r: String)
    ensures
        r@ == lower_chars(s@),
        s@.len() == 0 ==> r@.len() == 0,
{
    s.to_lowercase()
}

} // verus!
