//! Log file names: expansion of a name template and removal of characters
//! that file systems refuse.

use crate::clock::{read_local_clock, Clock};
use crate::text::{
    chars_of, push_char, push_signed_decimal, push_two_digits, signed_decimal, string_of,
    substitute, substituted, two_digits,
};
use vstd::prelude::*;
use vstd::string::*;

verus! {

/// Whether a character is left out of file names.
pub open spec fn unsafe_in_file_name(c: char) -> bool {
    c == '<' || c == '>' || c == '"' || c == '\\' || c == '/' || c == '|' || c == '?' || c == '*'
        || c == ':'
}

/// `name` without the characters that are left out of file names.
pub open spec fn sanitized(name: Seq<char>) -> Seq<char> {
    name.filter(|c: char| !unsafe_in_file_name(c))
}

/// The name used for the program where the caller gives none.
pub open spec fn fallback_program_name() -> Seq<char> {
    seq!['a', 'z', '_', 'l', 'o', 'g']
}

/// The program's name as a template sees it.
pub open spec fn program_name(exe: Option<&str>) -> Seq<char> {
    match exe {
        Some(name) => name@,
        None => fallback_program_name(),
    }
}

/// The template with its tokens replaced, before unsafe characters are removed.
///
/// The tokens are replaced one after the other, each in the whole text as the
/// earlier replacements left it: `<exe>`, `<dd>`, `<mm>`, `<HH>`, `<yyyy>`,
/// `<yy>`, `<MM>`, `<SS>`, `<timestamp>`.
pub open spec fn tokens_replaced(fmt: Seq<char>, exe: Seq<char>, clock: Clock) -> Seq<char> {
    let s = substituted(fmt, seq!['<', 'e', 'x', 'e', '>'], exe);
    let s = substituted(s, seq!['<', 'd', 'd', '>'], two_digits(clock.day as nat));
    let s = substituted(s, seq!['<', 'm', 'm', '>'], two_digits(clock.month as nat));
    let s = substituted(s, seq!['<', 'H', 'H', '>'], two_digits(clock.hour as nat));
    let s = substituted(s, seq!['<', 'y', 'y', 'y', 'y', '>'], clock.year@);
    let s = substituted(s, seq!['<', 'y', 'y', '>'], clock.year_short@);
    let s = substituted(s, seq!['<', 'M', 'M', '>'], two_digits(clock.minute as nat));
    let s = substituted(s, seq!['<', 'S', 'S', '>'], two_digits(clock.second as nat));
    substituted(
        s,
        seq!['<', 't', 'i', 'm', 'e', 's', 't', 'a', 'm', 'p', '>'],
        signed_decimal(clock.unix as int),
    )
}

/// The file name that a template stands for at a given clock reading.
pub open spec fn expanded(fmt: Seq<char>, exe: Seq<char>, clock: Clock) -> Seq<char> {
    sanitized(tokens_replaced(fmt, exe, clock))
}

/// Removes from a file name the characters `<>"\/|?*:`.
pub fn sanitize_filename(filename: &str) -> (clean: String)
    ensures
        clean@ == sanitized(filename@),
        forall|i: int| 0 <= i < clean@.len() ==> !unsafe_in_file_name(#[trigger] clean@[i]),
{
    let chars = chars_of(filename);
    let clean = string_of(&sanitize_chars(&chars));
    clean
}

/// Removes from a sequence of characters those that are left out of file names.
fn sanitize_chars(chars: &Vec<char>) -> (clean: Vec<char>)
    ensures
        clean@ == sanitized(chars@),
        forall|i: int| 0 <= i < clean@.len() ==> !unsafe_in_file_name(#[trigger] clean@[i]),
{
    let ghost keep = |c: char| !unsafe_in_file_name(c);
    let mut clean: Vec<char> = Vec::new();
    let mut i: usize = 0;
    proof {
        assert(chars@.take(0) =~= Seq::<char>::empty());
        assert(Seq::<char>::empty().filter(keep) =~= Seq::<char>::empty()) by {
            reveal(Seq::filter);
        }
    }
    while i < chars.len()
        invariant
            i <= chars.len(),
            keep == |c: char| !unsafe_in_file_name(c),
            clean@ == chars@.take(i as int).filter(keep),
            forall|k: int| 0 <= k < clean@.len() ==> !unsafe_in_file_name(#[trigger] clean@[k]),
        decreases chars.len() - i,
    {
        let c = chars[i];
        proof {
            assert(chars@.take(i + 1) =~= chars@.take(i as int).push(c));
            chars@.take(i as int).lemma_filter_push(c, keep);
        }
        if !(c == '<' || c == '>' || c == '"' || c == '\\' || c == '/' || c == '|' || c == '?' || c
            == '*' || c == ':') {
            clean.push(c);
        }
        i += 1;
    }
    assert(chars@.take(chars@.len() as int) =~= chars@);
    clean
}

/// The characters of the numeral of `n`, padded to two digits.
fn two_digit_chars(n: u32) -> (chars: Vec<char>)
    ensures
        chars@ == two_digits(n as nat),
{
    let mut text = String::new();
    push_two_digits(&mut text, n);
    chars_of(text.as_str())
}

/// The characters of the numeral of `i`, with its sign.
fn signed_decimal_chars(i: i64) -> (chars: Vec<char>)
    ensures
        chars@ == signed_decimal(i as int),
{
    let mut text = String::new();
    push_signed_decimal(&mut text, i);
    chars_of(text.as_str())
}

/// The characters of a token, for tokens of at least one character.
fn token(text: &str) -> (chars: Vec<char>)
    ensures
        chars@ == text@,
{
    chars_of(text)
}

/// Replaces the calendar tokens `<dd>`, `<mm>` and `<HH>`.
fn replace_day_tokens(text: &Vec<char>, clock: &Clock) -> (out: Vec<char>)
    ensures
        out@ == substituted(
            substituted(
                substituted(text@, seq!['<', 'd', 'd', '>'], two_digits(clock.day as nat)),
                seq!['<', 'm', 'm', '>'],
                two_digits(clock.month as nat),
            ),
            seq!['<', 'H', 'H', '>'],
            two_digits(clock.hour as nat),
        ),
{
    proof {
        reveal_strlit("<dd>");
        reveal_strlit("<mm>");
        reveal_strlit("<HH>");
    }
    assert("<dd>"@ =~= seq!['<', 'd', 'd', '>']);
    assert("<mm>"@ =~= seq!['<', 'm', 'm', '>']);
    assert("<HH>"@ =~= seq!['<', 'H', 'H', '>']);
    let s = substitute(text, &token("<dd>"), &two_digit_chars(clock.day));
    let s = substitute(&s, &token("<mm>"), &two_digit_chars(clock.month));
    substitute(&s, &token("<HH>"), &two_digit_chars(clock.hour))
}

/// Replaces the year tokens `<yyyy>` and `<yy>`.
fn replace_year_tokens(text: &Vec<char>, clock: &Clock) -> (out: Vec<char>)
    ensures
        out@ == substituted(
            substituted(text@, seq!['<', 'y', 'y', 'y', 'y', '>'], clock.year@),
            seq!['<', 'y', 'y', '>'],
            clock.year_short@,
        ),
{
    proof {
        reveal_strlit("<yyyy>");
        reveal_strlit("<yy>");
    }
    assert("<yyyy>"@ =~= seq!['<', 'y', 'y', 'y', 'y', '>']);
    assert("<yy>"@ =~= seq!['<', 'y', 'y', '>']);
    let s = substitute(text, &token("<yyyy>"), &chars_of(clock.year.as_str()));
    substitute(&s, &token("<yy>"), &chars_of(clock.year_short.as_str()))
}

/// Replaces the tokens `<MM>`, `<SS>` and `<timestamp>`.
fn replace_time_tokens(text: &Vec<char>, clock: &Clock) -> (out: Vec<char>)
    ensures
        out@ == substituted(
            substituted(
                substituted(text@, seq!['<', 'M', 'M', '>'], two_digits(clock.minute as nat)),
                seq!['<', 'S', 'S', '>'],
                two_digits(clock.second as nat),
            ),
            seq!['<', 't', 'i', 'm', 'e', 's', 't', 'a', 'm', 'p', '>'],
            signed_decimal(clock.unix as int),
        ),
{
    proof {
        reveal_strlit("<MM>");
        reveal_strlit("<SS>");
        reveal_strlit("<timestamp>");
    }
    assert("<MM>"@ =~= seq!['<', 'M', 'M', '>']);
    assert("<SS>"@ =~= seq!['<', 'S', 'S', '>']);
    assert("<timestamp>"@ =~= seq!['<', 't', 'i', 'm', 'e', 's', 't', 'a', 'm', 'p', '>']);
    let s = substitute(text, &token("<MM>"), &two_digit_chars(clock.minute));
    let s = substitute(&s, &token("<SS>"), &two_digit_chars(clock.second));
    substitute(&s, &token("<timestamp>"), &signed_decimal_chars(clock.unix))
}

/// Expands a log file name template at a given clock reading.
///
/// `exe` is the program's name; where it is `None`, `az_log` stands in.
pub fn expand_log_name_at(fmt: &str, exe: Option<&str>, clock: &Clock) -> (name: String)
    ensures
        name@ == expanded(fmt@, program_name(exe), *clock),
        forall|i: int| 0 <= i < name@.len() ==> !unsafe_in_file_name(#[trigger] name@[i]),
{
    let program = match exe {
        Some(name) => chars_of(name),
        None => {
            proof {
                reveal_strlit("az_log");
            }
            assert("az_log"@ =~= fallback_program_name());
            chars_of("az_log")
        },
    };
    proof {
        reveal_strlit("<exe>");
    }
    assert("<exe>"@ =~= seq!['<', 'e', 'x', 'e', '>']);
    let s = substitute(&chars_of(fmt), &token("<exe>"), &program);
    let s = replace_day_tokens(&s, clock);
    let s = replace_year_tokens(&s, clock);
    let s = replace_time_tokens(&s, clock);
    string_of(&sanitize_chars(&s))
}

/// Expands a log file name template using the current local time.
///
/// Supported tokens: `<exe>` (the program's name), `<dd>`, `<mm>`, `<HH>`,
/// `<MM>`, `<SS>` (two digits each), `<yy>`, `<yyyy>` and `<timestamp>` (UNIX
/// time). The characters `<>"\/|?*:` are removed from the result.
pub fn expand_log_name_fmt(fmt: &str, exe: Option<&str>) -> (name: String)
    ensures
        exists|clock: Clock| clock.wf() && name@ == #[trigger] expanded(fmt@, program_name(exe), clock),
        forall|i: int| 0 <= i < name@.len() ==> !unsafe_in_file_name(#[trigger] name@[i]),
{
    let clock = read_local_clock();
    let name = expand_log_name_at(fmt, exe, &clock);
    assert(clock.wf() && name@ == expanded(fmt@, program_name(exe), clock));
    name
}

} // verus!
