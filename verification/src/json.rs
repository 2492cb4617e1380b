//! A verified single-line JSON writer for the validation outcome: string
//! escaping, decimal number formatting, and the fixed document shape that
//! crosses the boundary.

use vstd::prelude::*;

verus! {

use vstd::string::StringExecFns;
use crate::validation::SourceLocationView;
use crate::validation::ValidationErrorView;
use crate::validation::ValidationResultView;

/// The decimal digit character for `n < 10`.
pub open spec fn dec_digit(n: nat) -> char {
    if n == 0 {
        '0'
    } else if n == 1 {
        '1'
    } else if n == 2 {
        '2'
    } else if n == 3 {
        '3'
    } else if n == 4 {
        '4'
    } else if n == 5 {
        '5'
    } else if n == 6 {
        '6'
    } else if n == 7 {
        '7'
    } else if n == 8 {
        '8'
    } else {
        '9'
    }
}

/// The decimal numeral of `n`, most significant digit first, no sign and
/// no leading zero.
pub open spec fn dec_str(n: nat) -> Seq<char>
    decreases n,
{
    if n < 10 {
        seq![dec_digit(n)]
    } else {
        dec_str(n / 10).push(dec_digit(n % 10))
    }
}

/// The lower-case hexadecimal digit character for `n < 16`.
pub open spec fn hex_digit(n: nat) -> char {
    if n < 10 {
        dec_digit(n)
    } else if n == 10 {
        'a'
    } else if n == 11 {
        'b'
    } else if n == 12 {
        'c'
    } else if n == 13 {
        'd'
    } else if n == 14 {
        'e'
    } else {
        'f'
    }
}

/// How one character appears inside a JSON string literal: quotes and
/// backslashes are escaped, the common control characters get their short
/// escapes, the remaining control characters a `\u00..` escape, and
/// everything else stands as itself.
pub open spec fn esc_char(c: char) -> Seq<char> {
    if c == '"' {
        seq!['\\', '"']
    } else if c == '\\' {
        seq!['\\', '\\']
    } else if c == '\n' {
        seq!['\\', 'n']
    } else if c == '\r' {
        seq!['\\', 'r']
    } else if c == '\t' {
        seq!['\\', 't']
    } else if (c as u32) < 32 {
        seq!['\\', 'u', '0', '0', hex_digit((c as u32 / 16) as nat), hex_digit(
            (c as u32 % 16) as nat,
        )]
    } else {
        seq![c]
    }
}

/// A text with every character escaped for a JSON string literal.
pub open spec fn esc_str(s: Seq<char>) -> Seq<char>
    decreases s.len(),
{
    if s.len() == 0 {
        Seq::empty()
    } else {
        esc_char(s[0]) + esc_str(s.drop_first())
    }
}

/// A JSON string literal: the escaped text between double quotes.
pub open spec fn json_string(s: Seq<char>) -> Seq<char> {
    seq!['"'] + esc_str(s) + seq!['"']
}

/// An optional text: `null` when absent, a JSON string literal otherwise.
pub open spec fn json_opt_string(o: Option<Seq<char>>) -> Seq<char> {
    match o {
        None => "null"@,
        Some(s) => json_string(s),
    }
}

/// An optional number: `null` when absent, its decimal numeral otherwise.
pub open spec fn json_opt_usize(o: Option<usize>) -> Seq<char> {
    match o {
        None => "null"@,
        Some(n) => dec_str(n as nat),
    }
}

/// The JSON object for a source location.
pub open spec fn json_of_location(l: SourceLocationView) -> Seq<char> {
    "{\"policy_id\":"@ + json_string(l.policy_id) + ",\"range_start\":"@ + json_opt_usize(
        l.range_start,
    ) + ",\"range_end\":"@ + json_opt_usize(l.range_end) + "}"@
}

/// The JSON object for one validation finding.
pub open spec fn json_of_error(e: ValidationErrorView) -> Seq<char> {
    "{\"error_kind\":"@ + json_string(e.error_kind) + ",\"location\":"@ + json_of_location(
        e.location,
    ) + "}"@
}

/// The comma-separated JSON objects for a list of findings, in order.
pub open spec fn json_of_errors(errs: Seq<ValidationErrorView>) -> Seq<char>
    decreases errs.len(),
{
    if errs.len() == 0 {
        Seq::empty()
    } else if errs.len() == 1 {
        json_of_error(errs[0])
    } else {
        json_of_errors(errs.drop_last()) + ","@ + json_of_error(errs.last())
    }
}

/// The whole single-line JSON document for a validation outcome.
pub open spec fn json_of_result(v: ValidationResultView) -> Seq<char> {
    "{\"schema_error\":"@ + json_opt_string(v.schema_error) + ",\"policy_error\":"@
        + json_opt_string(v.policy_error) + ",\"validation_errors\":["@ + json_of_errors(
        v.validation_errors,
    ) + "]}"@
}

/// Relies on `String::push`: appends exactly the one character.
#[verifier::external_body]
pub(crate) fn push_char(out: &mut String, c: char)
    ensures
        final(out)@ == old(out)@.push(c),
{
    out.push(c);
}

/// The decimal digit character of `d`, executably.
fn dec_digit_char(d: usize) -> (c: char)
    requires
        d < 10,
    ensures
        c == dec_digit(d as nat),
{
    if d == 0 {
        '0'
    } else if d == 1 {
        '1'
    } else if d == 2 {
        '2'
    } else if d == 3 {
        '3'
    } else if d == 4 {
        '4'
    } else if d == 5 {
        '5'
    } else if d == 6 {
        '6'
    } else if d == 7 {
        '7'
    } else if d == 8 {
        '8'
    } else {
        '9'
    }
}

/// The hexadecimal digit character of `d`, executably.
fn hex_digit_char(d: usize) -> (c: char)
    requires
        d < 16,
    ensures
        c == hex_digit(d as nat),
{
    if d < 10 {
        dec_digit_char(d)
    } else if d == 10 {
        'a'
    } else if d == 11 {
        'b'
    } else if d == 12 {
        'c'
    } else if d == 13 {
        'd'
    } else if d == 14 {
        'e'
    } else {
        'f'
    }
}

/// Appends the decimal numeral of `n`.
pub fn push_dec(out: &mut String, n: usize)
    ensures
        final(out)@ == old(out)@ + dec_str(n as nat),
    decreases n,
{
    if n < 10 {
        push_char(out, dec_digit_char(n));
        proof {
            assert(out@ =~= old(out)@ + dec_str(n as nat));
        }
    } else {
        let q = n / 10;
        let r = n % 10;
        push_dec(out, q);
        push_char(out, dec_digit_char(r));
        proof {
            assert(out@ =~= old(out)@ + dec_str(n as nat));
        }
    }
}

/// Appends the escape of one character.
fn push_esc_char(out: &mut String, c: char)
    ensures
        final(out)@ == old(out)@ + esc_char(c),
{
    if c == '"' {
        push_char(out, '\\');
        push_char(out, '"');
    } else if c == '\\' {
        push_char(out, '\\');
        push_char(out, '\\');
    } else if c == '\n' {
        push_char(out, '\\');
        push_char(out, 'n');
    } else if c == '\r' {
        push_char(out, '\\');
        push_char(out, 'r');
    } else if c == '\t' {
        push_char(out, '\\');
        push_char(out, 't');
    } else if (c as u32) < 32 {
        push_char(out, '\\');
        push_char(out, 'u');
        push_char(out, '0');
        push_char(out, '0');
        push_char(out, hex_digit_char((c as u32 / 16) as usize));
        push_char(out, hex_digit_char((c as u32 % 16) as usize));
    } else {
        push_char(out, c);
    }
    proof {
        assert(out@ =~= old(out)@ + esc_char(c));
    }
}

/// Escaping a text one character longer appends that character's escape.
proof fn lemma_esc_str_step(s: Seq<char>, i: int)
    requires
        0 <= i < s.len(),
    ensures
        esc_str(s.take(i + 1)) == esc_str(s.take(i)) + esc_char(s[i]),
    decreases i,
{
    let a = s.take(i + 1);
    if i == 0 {
        assert(a.len() == 1);
        assert(a[0] == s[0]);
        assert(a.drop_first() =~= Seq::<char>::empty());
        assert(esc_str(a) == esc_char(s[0]) + esc_str(Seq::<char>::empty()));
        assert(esc_char(s[0]) + Seq::<char>::empty() =~= esc_char(s[0]));
        assert(s.take(0) =~= Seq::<char>::empty());
        assert(esc_str(s.take(0)) == Seq::<char>::empty());
        assert(Seq::<char>::empty() + esc_char(s[0]) =~= esc_char(s[0]));
    } else {
        lemma_esc_str_step(s.drop_first(), i - 1);
        assert(a.drop_first() =~= s.drop_first().take(i));
        assert(s.take(i).drop_first() =~= s.drop_first().take(i - 1));
        assert(s.drop_first()[i - 1] == s[i]);
        assert(esc_str(s.take(i)) == esc_char(s[0]) + esc_str(s.drop_first().take(i - 1)));
        assert(esc_str(s.take(i)) + esc_char(s[i]) =~= esc_char(s[0]) + (esc_str(
            s.drop_first().take(i - 1),
        ) + esc_char(s[i])));
    }
}

/// Appends the escaped form of a whole text.
pub fn push_escaped(out: &mut String, s: &str)
    ensures
        final(out)@ == old(out)@ + esc_str(s@),
{
    let len = s.unicode_len();
    let mut i: usize = 0;
    while i < len
        invariant
            i <= len,
            len == s@.len(),
            out@ =~= old(out)@ + esc_str(s@.take(i as int)),
        decreases len - i,
    {
        let c = s.get_char(i);
        push_esc_char(out, c);
        proof {
            lemma_esc_str_step(s@, i as int);
            assert(out@ =~= old(out)@ + esc_str(s@.take(i + 1)));
        }
        i = i + 1;
    }
    proof {
        assert(s@.take(len as int) =~= s@);
    }
}

/// Appends a JSON string literal.
pub fn push_json_string(out: &mut String, s: &str)
    ensures
        final(out)@ == old(out)@ + json_string(s@),
{
    push_char(out, '"');
    push_escaped(out, s);
    push_char(out, '"');
    proof {
        assert(out@ =~= old(out)@ + json_string(s@));
    }
}

/// The view of an optional owned text.
pub open spec fn opt_text_view(o: Option<String>) -> Option<Seq<char>> {
    match o {
        Some(s) => Some(s@),
        None => None,
    }
}

/// Appends an optional text as `null` or a JSON string literal.
pub fn push_opt_string(out: &mut String, o: &Option<String>)
    ensures
        final(out)@ == old(out)@ + json_opt_string(opt_text_view(*o)),
{
    match o {
        None => {
            out.append("null");
        },
        Some(s) => {
            push_json_string(out, s.as_str());
        },
    }
}

/// Appends an optional number as `null` or its decimal numeral.
pub fn push_opt_usize(out: &mut String, o: &Option<usize>)
    ensures
        final(out)@ == old(out)@ + json_opt_usize(*o),
{
    match o {
        None => {
            out.append("null");
        },
        Some(n) => {
            push_dec(out, *n);
        },
    }
}

} // verus!
