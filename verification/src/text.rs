//! Building blocks for text: single characters, decimal numerals, and the
//! substitution of a token by a value.
//!
//! Everything here is stated over `Seq<char>`, the view of `str` and `String`.

use vstd::prelude::*;
use vstd::string::*;

verus! {

/// The character that writes the decimal digit `d`, for `d` below ten.
pub open spec fn digit_char(d: nat) -> char {
    ((48 + d) as u8) as char
}

/// The decimal numeral of `n`, without sign or leading zeros.
pub open spec fn decimal(n: nat) -> Seq<char>
    decreases n,
{
    if n < 10 {
        seq![digit_char(n)]
    } else {
        decimal(n / 10).push(digit_char(n % 10))
    }
}

/// The decimal numeral of `n`, with a zero in front where `n` has one digit.
pub open spec fn two_digits(n: nat) -> Seq<char> {
    if n < 10 {
        seq!['0'].add(decimal(n))
    } else {
        decimal(n)
    }
}

/// The decimal numeral of `i`, with a minus sign in front where `i` is negative.
pub open spec fn signed_decimal(i: int) -> Seq<char> {
    if i < 0 {
        seq!['-'].add(decimal((-i) as nat))
    } else {
        decimal(i as nat)
    }
}

/// `text` with every occurrence of `token` replaced by `value`, reading from
/// the left; an occurrence that overlaps an earlier one is not counted.
/// An empty `token` occurs nowhere.
pub open spec fn substituted(text: Seq<char>, token: Seq<char>, value: Seq<char>) -> Seq<char>
    decreases text.len(),
{
    if token.len() == 0 || text.len() < token.len() {
        text
    } else if text.take(token.len() as int) == token {
        value.add(substituted(text.skip(token.len() as int), token, value))
    } else {
        seq![text[0]].add(substituted(text.skip(1), token, value))
    }
}

/// Appends one character to a string.
///
/// Trusted: this is `String::push` of the standard library, which is documented
/// to append the given character to the end of the string.
#[verifier::external_body]
pub(crate) fn push_char(out: &mut String, c: char)
    ensures
        final(out)@ == old(out)@.push(c),
{
    out.push(c);
}

/// The characters of a string slice, in order.
pub fn chars_of(s: &str) -> (v: Vec<char>)
    ensures
        v@ == s@,
{
    let mut v: Vec<char> = Vec::new();
    for c in it: s.chars()
        invariant
            v@ == it.seq().take(it.index() as int),
    {
        v.push(c);
    }
    v
}

/// The string made of the given characters, in order.
pub fn string_of(chars: &Vec<char>) -> (s: String)
    ensures
        s@ == chars@,
{
    let mut s = String::new();
    let mut i: usize = 0;
    while i < chars.len()
        invariant
            i <= chars.len(),
            s@ == chars@.take(i as int),
        decreases chars.len() - i,
    {
        push_char(&mut s, chars[i]);
        i += 1;
    }
    s
}

/// The character of one decimal digit.
pub fn digit(d: u8) -> (c: char)
    requires
        d < 10,
    ensures
        c == digit_char(d as nat),
{
    (48u8 + d) as char
}

/// Appends the decimal numeral of `n`.
pub fn push_decimal(out: &mut String, n: u64)
    ensures
        final(out)@ == old(out)@ + decimal(n as nat),
    decreases n,
{
    if n >= 10 {
        push_decimal(out, n / 10);
    }
    push_char(out, digit((n % 10) as u8));
}

/// Appends the decimal numeral of `n`, padded with a zero to two digits.
pub fn push_two_digits(out: &mut String, n: u32)
    ensures
        final(out)@ == old(out)@ + two_digits(n as nat),
{
    if n < 10 {
        push_char(out, '0');
    }
    push_decimal(out, n as u64);
}

/// Appends the decimal numeral of `i`, with its sign where it is negative.
pub fn push_signed_decimal(out: &mut String, i: i64)
    ensures
        final(out)@ == old(out)@ + signed_decimal(i as int),
{
    if i < 0 {
        push_char(out, '-');
        let magnitude: u64 = (-(i as i128)) as u64;
        push_decimal(out, magnitude);
    } else {
        push_decimal(out, i as u64);
    }
}

/// Whether `token` stands in `text` at position `at`.
pub fn occurs_at(text: &Vec<char>, at: usize, token: &Vec<char>) -> (found: bool)
    requires
        at <= text.len(),
    ensures
        found == (text@.skip(at as int).len() >= token@.len() && text@.skip(at as int).take(
            token@.len() as int,
        ) == token@),
{
    if text.len() - at < token.len() {
        return false;
    }
    let ghost rest = text@.skip(at as int);
    let mut k: usize = 0;
    while k < token.len()
        invariant
            k <= token.len(),
            at + token.len() <= text.len(),
            rest == text@.skip(at as int),
            rest.take(k as int) == token@.take(k as int),
        decreases token.len() - k,
    {
        if text[at + k] != token[k] {
            assert(rest.take(token@.len() as int)[k as int] != token@[k as int]);
            return false;
        }
        assert(rest.take(k + 1) =~= rest.take(k as int).push(rest[k as int]));
        assert(token@.take(k + 1) =~= token@.take(k as int).push(token@[k as int]));
        k += 1;
    }
    assert(token@.take(token@.len() as int) =~= token@);
    true
}

/// Replaces every occurrence of `token` in `text` by `value`.
pub fn substitute(text: &Vec<char>, token: &Vec<char>, value: &Vec<char>) -> (out: Vec<char>)
    requires
        token@.len() > 0,
    ensures
        out@ == substituted(text@, token@, value@),
{
    let mut out: Vec<char> = Vec::new();
    let mut i: usize = 0;
    assert(text@.skip(0) =~= text@);
    assert(out@ + substituted(text@, token@, value@) =~= substituted(text@, token@, value@));
    while i < text.len()
        invariant
            i <= text.len(),
            token@.len() > 0,
            out@ + substituted(text@.skip(i as int), token@, value@) == substituted(
                text@,
                token@,
                value@,
            ),
        decreases text.len() - i,
    {
        let ghost rest = text@.skip(i as int);
        let ghost before = out@;
        if occurs_at(text, i, token) {
            let mut k: usize = 0;
            while k < value.len()
                invariant
                    k <= value.len(),
                    out@ == before + value@.take(k as int),
                decreases value.len() - k,
            {
                out.push(value[k]);
                assert(value@.take(k + 1) =~= value@.take(k as int).push(value@[k as int]));
                k += 1;
            }
            assert(value@.take(value@.len() as int) =~= value@);
            assert(rest.skip(token@.len() as int) =~= text@.skip(i + token@.len()));
            assert(out@ + substituted(text@.skip(i + token@.len()), token@, value@) =~= before
                + substituted(rest, token@, value@));
            i += token.len();
        } else {
            out.push(text[i]);
            assert(rest.skip(1) =~= text@.skip(i + 1));
            assert(rest =~= seq![rest[0]] + rest.skip(1));
            assert(out@ + substituted(text@.skip(i + 1), token@, value@) =~= before + substituted(
                rest,
                token@,
                value@,
            ));
            i += 1;
        }
    }
    assert(text@.skip(text@.len() as int) =~= Seq::<char>::empty());
    out
}

} // verus!
