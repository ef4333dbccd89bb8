//! JSON string literals: escaping for rendering, unescaping for parsing, and
//! the proof that parsing inverts rendering. This codec backs both the
//! request bodies sent to the daemons and the persisted configuration file.

use vstd::prelude::*;
use crate::strings::dec_digit;

verus! {

/// The lower-case hex digit for `d` < 16.
pub open spec fn hex_digit(d: nat) -> char {
    if d < 10 {
        dec_digit(d)
    } else if d == 10 {
        'a'
    } else if d == 11 {
        'b'
    } else if d == 12 {
        'c'
    } else if d == 13 {
        'd'
    } else if d == 14 {
        'e'
    } else {
        'f'
    }
}

/// The numeric value of a hex digit; 16 when `c` is no hex digit.
pub open spec fn hex_val(c: char) -> nat {
    if c == '0' {
        0
    } else if c == '1' {
        1
    } else if c == '2' {
        2
    } else if c == '3' {
        3
    } else if c == '4' {
        4
    } else if c == '5' {
        5
    } else if c == '6' {
        6
    } else if c == '7' {
        7
    } else if c == '8' {
        8
    } else if c == '9' {
        9
    } else if c == 'a' || c == 'A' {
        10
    } else if c == 'b' || c == 'B' {
        11
    } else if c == 'c' || c == 'C' {
        12
    } else if c == 'd' || c == 'D' {
        13
    } else if c == 'e' || c == 'E' {
        14
    } else if c == 'f' || c == 'F' {
        15
    } else {
        16
    }
}

/// Control characters, which a JSON string must carry escaped.
pub open spec fn is_ctrl(c: char) -> bool {
    (c as u32) < 32
}

/// How one character is written inside a JSON string literal.
pub open spec fn escape_char(c: char) -> Seq<char> {
    if c == '"' {
        seq!['\\', '"']
    } else if c == '\\' {
        seq!['\\', '\\']
    } else if c == '\n' {
        seq!['\\', 'n']
    } else if c == '\r' {
        seq!['\\', 'r']
    } else if c == '\t' {
        seq!['\\', 't']
    } else if is_ctrl(c) {
        seq![
            '\\',
            'u',
            '0',
            '0',
            hex_digit(((c as u32) / 16) as nat),
            hex_digit(((c as u32) % 16) as nat),
        ]
    } else {
        seq![c]
    }
}

/// The body of the JSON string literal carrying `s`.
pub open spec fn escape(s: Seq<char>) -> Seq<char>
    decreases s.len(),
{
    if s.len() == 0 {
        Seq::<char>::empty()
    } else {
        escape_char(s[0]) + escape(s.drop_first())
    }
}

/// Escaping distributes over concatenation.
pub proof fn lemma_escape_concat(a: Seq<char>, b: Seq<char>)
    ensures
        escape(a + b) == escape(a) + escape(b),
    decreases a.len(),
{
    if a.len() == 0 {
        assert(a + b =~= b);
        assert(escape(a) + escape(b) =~= escape(b));
    } else {
        assert((a + b).drop_first() =~= a.drop_first() + b);
        lemma_escape_concat(a.drop_first(), b);
        assert((a + b)[0] == a[0]);
        assert(escape_char(a[0]) + (escape(a.drop_first()) + escape(b)) =~= (escape_char(a[0])
            + escape(a.drop_first())) + escape(b));
    }
}

/// Escaping one character.
proof fn lemma_escape_single(c: char)
    ensures
        escape(seq![c]) == escape_char(c),
{
    assert(seq![c].drop_first() =~= Seq::<char>::empty());
    assert(escape_char(c) + escape(seq![c].drop_first()) =~= escape_char(c));
}

/// The hex digit for `d` < 16, executable form.
pub fn hex_digit_exec(d: u32) -> (r: char)
    requires
        d < 16,
    ensures
        r == hex_digit(d as nat),
{
    match d {
        0 => '0',
        1 => '1',
        2 => '2',
        3 => '3',
        4 => '4',
        5 => '5',
        6 => '6',
        7 => '7',
        8 => '8',
        9 => '9',
        10 => 'a',
        11 => 'b',
        12 => 'c',
        13 => 'd',
        14 => 'e',
        _ => 'f',
    }
}

/// Appends the escaped form of `s` to `out`.
pub fn push_escaped(s: &Vec<char>, out: &mut Vec<char>)
    ensures
        final(out)@ == old(out)@ + escape(s@),
{
    let mut i: usize = 0;
    proof {
        assert(old(out)@ + escape(s@.subrange(0, 0)) =~= old(out)@);
    }
    while i < s.len()
        invariant
            i <= s@.len(),
            out@ == old(out)@ + escape(s@.subrange(0, i as int)),
        decreases s@.len() - i,
    {
        let c = s[i];
        if c == '"' {
            out.push('\\');
            out.push('"');
        } else if c == '\\' {
            out.push('\\');
            out.push('\\');
        } else if c == '\n' {
            out.push('\\');
            out.push('n');
        } else if c == '\r' {
            out.push('\\');
            out.push('r');
        } else if c == '\t' {
            out.push('\\');
            out.push('t');
        } else if (c as u32) < 32 {
            out.push('\\');
            out.push('u');
            out.push('0');
            out.push('0');
            out.push(hex_digit_exec((c as u32) / 16));
            out.push(hex_digit_exec((c as u32) % 16));
        } else {
            out.push(c);
        }
        i = i + 1;
        proof {
            assert(s@.subrange(0, i as int) =~= s@.subrange(0, i as int - 1) + seq![
                s@[i as int - 1],
            ]);
            lemma_escape_concat(s@.subrange(0, i as int - 1), seq![s@[i as int - 1]]);
            lemma_escape_single(s@[i as int - 1]);
            assert(out@ =~= old(out)@ + escape(s@.subrange(0, i as int)));
        }
    }
    proof {
        assert(s@.subrange(0, s@.len() as int) =~= s@);
    }
}

/// The full JSON string literal carrying `s`, quotes included.
pub open spec fn render_string(s: Seq<char>) -> Seq<char> {
    seq!['"'] + escape(s) + seq!['"']
}

/// Appends the JSON string literal carrying `s` to `out`.
pub fn push_json_string(s: &Vec<char>, out: &mut Vec<char>)
    ensures
        final(out)@ == old(out)@ + render_string(s@),
{
    out.push('"');
    push_escaped(s, out);
    out.push('"');
    proof {
        assert(final(out)@ =~= old(out)@ + render_string(s@));
    }
}

/// Code points that a single `char` can carry.
pub open spec fn is_scalar_value(v: nat) -> bool {
    v < 0xD800 || (0xE000 <= v && v < 0x110000)
}

/// Prefixing a character onto the value of a partial parse.
pub open spec fn prepend(c: char, r: Option<(Seq<char>, Seq<char>)>) -> Option<
    (Seq<char>, Seq<char>),
> {
    match r {
        Some((v, rest)) => Some((seq![c] + v, rest)),
        None => None,
    }
}

/// Parses the remainder of a JSON string literal, entered just after its
/// opening quote: the decoded value and what follows the closing quote, or
/// `None` when the literal is unterminated or malformed.
pub open spec fn parse_str(s: Seq<char>) -> Option<(Seq<char>, Seq<char>)>
    decreases s.len(),
{
    if s.len() == 0 {
        None
    } else if s[0] == '"' {
        Some((Seq::<char>::empty(), s.drop_first()))
    } else if s[0] == '\\' {
        if s.len() < 2 {
            None
        } else {
            let e = s[1];
            if e == '"' {
                prepend('"', parse_str(s.subrange(2, s.len() as int)))
            } else if e == '\\' {
                prepend('\\', parse_str(s.subrange(2, s.len() as int)))
            } else if e == '/' {
                prepend('/', parse_str(s.subrange(2, s.len() as int)))
            } else if e == 'n' {
                prepend('\n', parse_str(s.subrange(2, s.len() as int)))
            } else if e == 'r' {
                prepend('\r', parse_str(s.subrange(2, s.len() as int)))
            } else if e == 't' {
                prepend('\t', parse_str(s.subrange(2, s.len() as int)))
            } else if e == 'b' {
                prepend('\u{0008}', parse_str(s.subrange(2, s.len() as int)))
            } else if e == 'f' {
                prepend('\u{000C}', parse_str(s.subrange(2, s.len() as int)))
            } else if e == 'u' {
                if s.len() < 6 {
                    None
                } else {
                    let v = hex_val(s[2]) * 4096 + hex_val(s[3]) * 256 + hex_val(s[4]) * 16
                        + hex_val(s[5]);
                    if hex_val(s[2]) < 16 && hex_val(s[3]) < 16 && hex_val(s[4]) < 16 && hex_val(
                        s[5],
                    ) < 16 && is_scalar_value(v) {
                        prepend(((v as u32) as char), parse_str(s.subrange(6, s.len() as int)))
                    } else {
                        None
                    }
                }
            } else {
                None
            }
        }
    } else if is_ctrl(s[0]) {
        None
    } else {
        prepend(s[0], parse_str(s.drop_first()))
    }
}

/// Parsing a rendered string literal recovers the original characters and
/// leaves exactly what followed the literal.
pub proof fn lemma_parse_str_escape(v: Seq<char>, rest: Seq<char>)
    ensures
        parse_str(escape(v) + seq!['"'] + rest) == Some((v, rest)),
    decreases v.len(),
{
    if v.len() == 0 {
        assert(escape(v) + seq!['"'] + rest =~= seq!['"'] + rest);
        let s = seq!['"'] + rest;
        assert(s[0] == '"');
        assert(s.drop_first() =~= rest);
    } else {
        let c = v[0];
        let w = v.drop_first();
        lemma_parse_str_escape(w, rest);
        let tail = escape(w) + seq!['"'] + rest;
        let s = escape(v) + seq!['"'] + rest;
        assert(escape(v) == escape_char(c) + escape(w));
        assert(s =~= escape_char(c) + tail);
        if c == '"' || c == '\\' || c == '\n' || c == '\r' || c == '\t' {
            assert(s[0] == '\\');
            assert(s.subrange(2, s.len() as int) =~= tail);
            assert(seq![c] + w =~= v);
        } else if is_ctrl(c) {
            let u = c as u32;
            vstd::utf8::char_is_scalar(c);
            assert(s[0] == '\\' && s[1] == 'u' && s[2] == '0' && s[3] == '0');
            assert(s[4] == hex_digit((u / 16) as nat));
            assert(s[5] == hex_digit((u % 16) as nat));
            lemma_hex_val_of_digit((u / 16) as nat);
            lemma_hex_val_of_digit((u % 16) as nat);
            assert(hex_val(s[2]) == 0 && hex_val(s[3]) == 0);
            assert(hex_val(s[4]) * 16 + hex_val(s[5]) == u);
            assert(is_scalar_value(u as nat));
            vstd::utf8::char_u32_cast(c, u);
            assert(((u as u32) as char) == c);
            assert(s.subrange(6, s.len() as int) =~= tail);
            assert(seq![c] + w =~= v);
        } else {
            assert(s[0] == c);
            assert(s.drop_first() =~= tail);
            assert(seq![c] + w =~= v);
        }
    }
}

/// Relies on std's `char::from_u32`: the character for a scalar value.
#[verifier::external_body]
pub(crate) fn char_of_scalar(v: u32) -> (r: char)
    requires
        is_scalar_value(v as nat),
    ensures
        r == (v as char),
{
    char::from_u32(v).unwrap_or('\u{0}')
}

/// `hex_val` inverts `hex_digit` below 16.
proof fn lemma_hex_val_of_digit(d: nat)
    requires
        d < 16,
    ensures
        hex_val(hex_digit(d)) == d,
{
}

} // verus!
