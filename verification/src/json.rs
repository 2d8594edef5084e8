//! Framing of the output record: one JSON object per line, holding the
//! rendered text and the status class, with standard JSON string escaping.

use vstd::prelude::*;
use crate::text::push_all;

verus! {

/// The hexadecimal digit character for a value below sixteen.
pub open spec fn hex_digit(n: int) -> char {
    if n == 0 {
        '0'
    } else if n == 1 {
        '1'
    } else if n == 2 {
        '2'
    } else if n == 3 {
        '3'
    } else if n == 4 {
        '4'
    } else if n == 5 {
        '5'
    } else if n == 6 {
        '6'
    } else if n == 7 {
        '7'
    } else if n == 8 {
        '8'
    } else if n == 9 {
        '9'
    } else if n == 10 {
        'a'
    } else if n == 11 {
        'b'
    } else if n == 12 {
        'c'
    } else if n == 13 {
        'd'
    } else if n == 14 {
        'e'
    } else {
        'f'
    }
}

/// The escape sequence of one character inside a JSON string: quote and
/// backslash are escaped, the named control characters get their short
/// forms, the remaining control characters the `\u00XX` form, and
/// everything else stands for itself.
pub open spec fn esc_char(c: char) -> Seq<char> {
    if c == '"' {
        seq!['\\', '"']
    } else if c == '\\' {
        seq!['\\', '\\']
    } else if c == '\u{8}' {
        seq!['\\', 'b']
    } else if c == '\t' {
        seq!['\\', 't']
    } else if c == '\n' {
        seq!['\\', 'n']
    } else if c == '\u{c}' {
        seq!['\\', 'f']
    } else if c == '\r' {
        seq!['\\', 'r']
    } else if (c as u32) < 32 {
        seq!['\\', 'u', '0', '0', hex_digit((c as u32) as int / 16), hex_digit((c as u32) as int % 16)]
    } else {
        seq![c]
    }
}

/// A whole text escaped for a JSON string.
pub open spec fn json_escape(s: Seq<char>) -> Seq<char>
    decreases s.len(),
{
    if s.len() == 0 {
        Seq::<char>::empty()
    } else {
        json_escape(s.drop_last()) + esc_char(s.last())
    }
}

/// The output record for a text and a status class, as a single line of
/// JSON with the keys in lexicographic order.
pub open spec fn json_record(text: Seq<char>, class: Seq<char>) -> Seq<char> {
    seq!['{', '"', 'c', 'l', 'a', 's', 's', '"', ':', '"'] + json_escape(class) + seq![
        '"',
        ',',
        '"',
        't',
        'e',
        'x',
        't',
        '"',
        ':',
        '"',
    ] + json_escape(text) + seq!['"', '}']
}

/// Executable twin of `hex_digit`.
fn hex_digit_char(n: u32) -> (c: char)
    requires
        n < 16,
    ensures
        c == hex_digit(n as int),
{
    if n == 0 {
        '0'
    } else if n == 1 {
        '1'
    } else if n == 2 {
        '2'
    } else if n == 3 {
        '3'
    } else if n == 4 {
        '4'
    } else if n == 5 {
        '5'
    } else if n == 6 {
        '6'
    } else if n == 7 {
        '7'
    } else if n == 8 {
        '8'
    } else if n == 9 {
        '9'
    } else if n == 10 {
        'a'
    } else if n == 11 {
        'b'
    } else if n == 12 {
        'c'
    } else if n == 13 {
        'd'
    } else if n == 14 {
        'e'
    } else {
        'f'
    }
}

/// Appends the escape sequence of one character.
fn push_escaped_char(out: &mut Vec<char>, c: char)
    ensures
        final(out)@ == old(out)@ + esc_char(c),
{
    if c == '"' {
        out.push('\\');
        out.push('"');
    } else if c == '\\' {
        out.push('\\');
        out.push('\\');
    } else if c == '\u{8}' {
        out.push('\\');
        out.push('b');
    } else if c == '\t' {
        out.push('\\');
        out.push('t');
    } else if c == '\n' {
        out.push('\\');
        out.push('n');
    } else if c == '\u{c}' {
        out.push('\\');
        out.push('f');
    } else if c == '\r' {
        out.push('\\');
        out.push('r');
    } else if (c as u32) < 32 {
        out.push('\\');
        out.push('u');
        out.push('0');
        out.push('0');
        out.push(hex_digit_char((c as u32) / 16));
        out.push(hex_digit_char((c as u32) % 16));
    } else {
        out.push(c);
    }
    proof {
        assert(final(out)@ =~= old(out)@ + esc_char(c));
    }
}

/// Appends the whole text escaped for a JSON string.
fn push_escaped(out: &mut Vec<char>, s: &Vec<char>)
    ensures
        final(out)@ == old(out)@ + json_escape(s@),
{
    let n: usize = s.len();
    let mut i: usize = 0;
    while i < n
        invariant
            i <= n,
            n == s@.len(),
            out@ == old(out)@ + json_escape(s@.subrange(0, i as int)),
        decreases n - i,
    {
        push_escaped_char(out, s[i]);
        i = i + 1;
        proof {
            let pre = s@.subrange(0, i as int);
            assert(pre.drop_last() =~= s@.subrange(0, i - 1));
            assert(pre.last() == s@[i - 1]);
            assert(out@ =~= old(out)@ + json_escape(pre));
        }
    }
    proof {
        assert(s@.subrange(0, n as int) =~= s@);
    }
}

/// Builds the JSON output record for a text and a status class.
pub fn json_status_line(text: &Vec<char>, class: &Vec<char>) -> (r: Vec<char>)
    ensures
        r@ == json_record(text@, class@),
{
    let mut out: Vec<char> = Vec::new();
    out.push('{');
    out.push('"');
    out.push('c');
    out.push('l');
    out.push('a');
    out.push('s');
    out.push('s');
    out.push('"');
    out.push(':');
    out.push('"');
    push_escaped(&mut out, class);
    out.push('"');
    out.push(',');
    out.push('"');
    out.push('t');
    out.push('e');
    out.push('x');
    out.push('t');
    out.push('"');
    out.push(':');
    out.push('"');
    push_escaped(&mut out, text);
    out.push('"');
    out.push('}');
    proof {
        assert(out@ =~= json_record(text@, class@));
    }
    out
}

} // verus!
