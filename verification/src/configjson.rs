//! The persisted form of a model configuration: a single JSON object with
//! the fields name, size, url and local_path, in that order. Rendering and
//! parsing are verified, and parsing a rendered configuration provably
//! recovers the name, size class and URL — the local path is parsed too, but
//! a reader of the file recomputes it for the running platform.

use vstd::prelude::*;
use vstd::string::*;
use crate::strings::{is_prefix, chars_of, string_of, subvec, push_str_chars, starts_with_chars};
use crate::pathstr::eq_str;
use crate::jsontext::{
    escape,
    render_string,
    push_json_string,
    parse_str,
    hex_val,
    char_of_scalar,
    lemma_parse_str_escape,
};
use crate::manager::ModelSize;
use crate::manager::ModelConfig;
use crate::jsonio::opt_view;

verus! {

/// JSON's inter-token whitespace.
pub open spec fn is_json_ws(c: char) -> bool {
    c == ' ' || c == '\t' || c == '\r' || c == '\n'
}

/// `s` without leading JSON whitespace.
pub open spec fn skip_ws(s: Seq<char>) -> Seq<char>
    decreases s.len(),
{
    if s.len() > 0 && is_json_ws(s[0]) {
        skip_ws(s.drop_first())
    } else {
        s
    }
}

/// The remainder of `s` after optional whitespace and the literal `lit`.
pub open spec fn expect_lit(s: Seq<char>, lit: Seq<char>) -> Option<Seq<char>> {
    let t = skip_ws(s);
    if is_prefix(t, lit) {
        Some(t.subrange(lit.len() as int, t.len() as int))
    } else {
        None
    }
}

/// A JSON string token: optional whitespace, then a string literal.
pub open spec fn parse_string_tok(s: Seq<char>) -> Option<(Seq<char>, Seq<char>)> {
    let t = skip_ws(s);
    if t.len() > 0 && t[0] == '"' {
        parse_str(t.drop_first())
    } else {
        None
    }
}

/// The size class named by a word.
pub open spec fn word_size(w: Seq<char>) -> Option<ModelSize> {
    if w == "Small"@ {
        Some(ModelSize::Small)
    } else if w == "Medium"@ {
        Some(ModelSize::Medium)
    } else if w == "Large"@ {
        Some(ModelSize::Large)
    } else {
        None
    }
}

/// The word naming a size class.
pub open spec fn size_word(z: ModelSize) -> Seq<char> {
    match z {
        ModelSize::Small => "Small"@,
        ModelSize::Medium => "Medium"@,
        ModelSize::Large => "Large"@,
    }
}

/// A size-class token: a string naming one of the three classes.
pub open spec fn parse_size_tok(s: Seq<char>) -> Option<(ModelSize, Seq<char>)> {
    match parse_string_tok(s) {
        Some((w, rest)) => match word_size(w) {
            Some(z) => Some((z, rest)),
            None => None,
        },
        None => None,
    }
}

/// A URL token: `null` or a string.
pub open spec fn parse_url_tok(s: Seq<char>) -> Option<(Option<Seq<char>>, Seq<char>)> {
    let t = skip_ws(s);
    if is_prefix(t, "null"@) {
        Some((None, t.subrange(4, t.len() as int)))
    } else {
        match parse_string_tok(s) {
            Some((u, rest)) => Some((Some(u), rest)),
            None => None,
        }
    }
}

/// Parses the persisted configuration object: its name, size class, URL and
/// local path, provided nothing but whitespace follows the closing brace.
pub open spec fn spec_parse_config(s: Seq<char>) -> Option<
    (Seq<char>, ModelSize, Option<Seq<char>>, Seq<char>),
> {
    match expect_lit(s, "{"@) {
        None => None,
        Some(s1) => match expect_lit(s1, "\"name\":"@) {
            None => None,
            Some(s2) => match parse_string_tok(s2) {
                None => None,
                Some((name, s3)) => match expect_lit(s3, ","@) {
                    None => None,
                    Some(s4) => match expect_lit(s4, "\"size\":"@) {
                        None => None,
                        Some(s5) => match parse_size_tok(s5) {
                            None => None,
                            Some((size, s6)) => match expect_lit(s6, ","@) {
                                None => None,
                                Some(s7) => match expect_lit(s7, "\"url\":"@) {
                                    None => None,
                                    Some(s8) => match parse_url_tok(s8) {
                                        None => None,
                                        Some((url, s9)) => match expect_lit(s9, ","@) {
                                            None => None,
                                            Some(s10) => match expect_lit(
                                                s10,
                                                "\"local_path\":"@,
                                            ) {
                                                None => None,
                                                Some(s11) => match parse_string_tok(s11) {
                                                    None => None,
                                                    Some((lp, s12)) => match expect_lit(
                                                        s12,
                                                        "}"@,
                                                    ) {
                                                        None => None,
                                                        Some(s13) => if skip_ws(s13).len() == 0 {
                                                            Some((name, size, url, lp))
                                                        } else {
                                                            None
                                                        },
                                                    },
                                                },
                                            },
                                        },
                                    },
                                },
                            },
                        },
                    },
                },
            },
        },
    }
}

/// The rendered URL field.
pub open spec fn spec_render_url(u: Option<Seq<char>>) -> Seq<char> {
    match u {
        None => "null"@,
        Some(x) => render_string(x),
    }
}

/// The rendered configuration object.
pub open spec fn spec_render_config(c: ModelConfig) -> Seq<char> {
    "{"@ + "\"name\":"@ + render_string(c.name@) + ","@ + "\"size\":"@ + render_string(
        size_word(c.size),
    ) + ","@ + "\"url\":"@ + spec_render_url(opt_view(c.url)) + ","@ + "\"local_path\":"@
        + render_string(c.local_path@) + "}"@
}

/// The word naming a size class, executable form.
pub fn size_word_str(z: ModelSize) -> (r: &'static str)
    ensures
        r@ == size_word(z),
{
    match z {
        ModelSize::Small => "Small",
        ModelSize::Medium => "Medium",
        ModelSize::Large => "Large",
    }
}

/// Renders a configuration in its persisted form.
pub fn render_config(c: &ModelConfig) -> (r: String)
    ensures
        r@ == spec_render_config(*c),
{
    let mut out: Vec<char> = Vec::new();
    push_str_chars("{", &mut out);
    push_str_chars("\"name\":", &mut out);
    let nv = chars_of(c.name.as_str());
    push_json_string(&nv, &mut out);
    push_str_chars(",", &mut out);
    push_str_chars("\"size\":", &mut out);
    let wv = chars_of(size_word_str(c.size));
    push_json_string(&wv, &mut out);
    push_str_chars(",", &mut out);
    push_str_chars("\"url\":", &mut out);
    match &c.url {
        Some(u) => {
            let uv = chars_of(u.as_str());
            push_json_string(&uv, &mut out);
        },
        None => {
            push_str_chars("null", &mut out);
        },
    }
    push_str_chars(",", &mut out);
    push_str_chars("\"local_path\":", &mut out);
    let lv = chars_of(c.local_path.as_str());
    push_json_string(&lv, &mut out);
    push_str_chars("}", &mut out);
    proof {
        assert(out@ =~= spec_render_config(*c));
    }
    string_of(&out)
}

/// Whether `c` is JSON whitespace, executable form.
fn is_json_ws_exec(c: char) -> (r: bool)
    ensures
        r == is_json_ws(c),
{
    c == ' ' || c == '\t' || c == '\r' || c == '\n'
}

/// `s` without leading JSON whitespace, executable form.
fn skip_ws_exec(s: Vec<char>) -> (r: Vec<char>)
    ensures
        r@ == skip_ws(s@),
{
    let mut a: usize = 0;
    proof {
        assert(s@.subrange(0, s@.len() as int) =~= s@);
    }
    while a < s.len() && is_json_ws_exec(s[a])
        invariant
            a <= s@.len(),
            skip_ws(s@) == skip_ws(s@.subrange(a as int, s@.len() as int)),
        decreases s@.len() - a,
    {
        proof {
            assert(s@.subrange(a as int, s@.len() as int).drop_first() =~= s@.subrange(
                a as int + 1,
                s@.len() as int,
            ));
        }
        a = a + 1;
    }
    proof {
        if a < s@.len() {
            assert(skip_ws(s@.subrange(a as int, s@.len() as int)) == s@.subrange(
                a as int,
                s@.len() as int,
            ));
        } else {
            assert(s@.subrange(a as int, s@.len() as int) =~= Seq::<char>::empty());
        }
    }
    subvec(&s, a, s.len())
}

/// The remainder after optional whitespace and `lit`, executable form.
fn expect_lit_exec(s: Vec<char>, lit: &str) -> (r: Option<Vec<char>>)
    ensures
        match expect_lit(s@, lit@) {
            Some(r0) => r matches Some(rr) && rr@ == r0,
            None => r is None,
        },
{
    let t = skip_ws_exec(s);
    let lv = chars_of(lit);
    if starts_with_chars(&t, &lv) {
        Some(subvec(&t, lv.len(), t.len()))
    } else {
        None
    }
}

/// The numeric value of a hex digit, 16 when `c` is none, executable form.
fn hex_val_exec(c: char) -> (r: u32)
    ensures
        r == hex_val(c),
{
    match c {
        '0' => 0,
        '1' => 1,
        '2' => 2,
        '3' => 3,
        '4' => 4,
        '5' => 5,
        '6' => 6,
        '7' => 7,
        '8' => 8,
        '9' => 9,
        'a' | 'A' => 10,
        'b' | 'B' => 11,
        'c' | 'C' => 12,
        'd' | 'D' => 13,
        'e' | 'E' => 14,
        'f' | 'F' => 15,
        _ => 16,
    }
}

/// Prefixes one character onto a partial parse, executable form.
fn prepend_exec(c: char, r: Option<(Vec<char>, Vec<char>)>) -> (out: Option<(Vec<char>, Vec<char>)>)
    ensures
        match r {
            Some((v, rest)) => out matches Some((ov, orest)) && ov@ == seq![c] + v@ && orest@
                == rest@,
            None => out is None,
        },
{
    match r {
        Some((mut v, rest)) => {
            v.insert(0, c);
            proof {
                assert(v@ =~= seq![c] + v@.subrange(1, v@.len() as int));
            }
            Some((v, rest))
        },
        None => None,
    }
}

/// Parses the remainder of a JSON string literal, executable form.
fn parse_str_exec(s: Vec<char>) -> (r: Option<(Vec<char>, Vec<char>)>)
    ensures
        match parse_str(s@) {
            Some((v0, r0)) => r matches Some((v, rr)) && v@ == v0 && rr@ == r0,
            None => r is None,
        },
    decreases s@.len(),
{
    if s.len() == 0 {
        return None;
    }
    let c0 = s[0];
    if c0 == '"' {
        let rest = subvec(&s, 1, s.len());
        proof {
            assert(rest@ =~= s@.drop_first());
        }
        let empty: Vec<char> = Vec::new();
        return Some((empty, rest));
    }
    if c0 == '\\' {
        if s.len() < 2 {
            return None;
        }
        let e = s[1];
        if e == 'u' {
            if s.len() < 6 {
                return None;
            }
            let h2 = hex_val_exec(s[2]);
            let h3 = hex_val_exec(s[3]);
            let h4 = hex_val_exec(s[4]);
            let h5 = hex_val_exec(s[5]);
            let v: u32 = h2 * 4096 + h3 * 256 + h4 * 16 + h5;
            if h2 < 16 && h3 < 16 && h4 < 16 && h5 < 16 && (v < 0xD800 || (0xE000 <= v && v
                < 0x110000)) {
                let ch = char_of_scalar(v);
                let tail = subvec(&s, 6, s.len());
                return prepend_exec(ch, parse_str_exec(tail));
            }
            return None;
        }
        let ch: char = if e == '"' {
            '"'
        } else if e == '\\' {
            '\\'
        } else if e == '/' {
            '/'
        } else if e == 'n' {
            '\n'
        } else if e == 'r' {
            '\r'
        } else if e == 't' {
            '\t'
        } else if e == 'b' {
            '\u{0008}'
        } else if e == 'f' {
            '\u{000C}'
        } else {
            return None;
        };
        let tail = subvec(&s, 2, s.len());
        return prepend_exec(ch, parse_str_exec(tail));
    }
    if (c0 as u32) < 32 {
        return None;
    }
    let tail = subvec(&s, 1, s.len());
    proof {
        assert(tail@ =~= s@.drop_first());
    }
    prepend_exec(c0, parse_str_exec(tail))
}

/// A JSON string token, executable form.
fn parse_string_tok_exec(s: Vec<char>) -> (r: Option<(String, Vec<char>)>)
    ensures
        match parse_string_tok(s@) {
            Some((v0, r0)) => r matches Some((v, rr)) && v@ == v0 && rr@ == r0,
            None => r is None,
        },
{
    let t = skip_ws_exec(s);
    if t.len() > 0 && t[0] == '"' {
        let body = subvec(&t, 1, t.len());
        proof {
            assert(body@ =~= t@.drop_first());
        }
        match parse_str_exec(body) {
            Some((v, rest)) => Some((string_of(&v), rest)),
            None => None,
        }
    } else {
        None
    }
}

/// A size-class token, executable form.
fn parse_size_tok_exec(s: Vec<char>) -> (r: Option<(ModelSize, Vec<char>)>)
    ensures
        match parse_size_tok(s@) {
            Some((z0, r0)) => r matches Some((z, rr)) && z == z0 && rr@ == r0,
            None => r is None,
        },
{
    match parse_string_tok_exec(s) {
        Some((w, rest)) => {
            if eq_str(w.as_str(), "Small") {
                Some((ModelSize::Small, rest))
            } else if eq_str(w.as_str(), "Medium") {
                Some((ModelSize::Medium, rest))
            } else if eq_str(w.as_str(), "Large") {
                Some((ModelSize::Large, rest))
            } else {
                None
            }
        },
        None => None,
    }
}

/// A URL token, executable form.
fn parse_url_tok_exec(s: Vec<char>) -> (r: Option<(Option<String>, Vec<char>)>)
    ensures
        match parse_url_tok(s@) {
            Some((u0, r0)) => r matches Some((u, rr)) && opt_view(u) == u0 && rr@ == r0,
            None => r is None,
        },
{
    let whole = subvec(&s, 0, s.len());
    proof {
        assert(whole@ =~= s@);
        reveal_strlit("null");
    }
    let t = skip_ws_exec(whole);
    let nv = chars_of("null");
    if starts_with_chars(&t, &nv) {
        let rest = subvec(&t, nv.len(), t.len());
        return Some((None, rest));
    }
    match parse_string_tok_exec(s) {
        Some((u, rest)) => Some((Some(u), rest)),
        None => None,
    }
}

/// Parses the persisted configuration text. The parsed local path is
/// returned as written; readers recompute it for the running platform.
pub fn parse_config(s: &str) -> (r: Option<ModelConfig>)
    ensures
        match spec_parse_config(s@) {
            Some((n, z, u, lp)) => r matches Some(c) && c.name@ == n && c.size == z && opt_view(
                c.url,
            ) == u && c.local_path@ == lp,
            None => r is None,
        },
{
    let v = chars_of(s);
    let s1 = match expect_lit_exec(v, "{") {
        Some(x) => x,
        None => {
            return None;
        },
    };
    let s2 = match expect_lit_exec(s1, "\"name\":") {
        Some(x) => x,
        None => {
            return None;
        },
    };
    let (name, s3) = match parse_string_tok_exec(s2) {
        Some(x) => x,
        None => {
            return None;
        },
    };
    let s4 = match expect_lit_exec(s3, ",") {
        Some(x) => x,
        None => {
            return None;
        },
    };
    let s5 = match expect_lit_exec(s4, "\"size\":") {
        Some(x) => x,
        None => {
            return None;
        },
    };
    let (size, s6) = match parse_size_tok_exec(s5) {
        Some(x) => x,
        None => {
            return None;
        },
    };
    let s7 = match expect_lit_exec(s6, ",") {
        Some(x) => x,
        None => {
            return None;
        },
    };
    let s8 = match expect_lit_exec(s7, "\"url\":") {
        Some(x) => x,
        None => {
            return None;
        },
    };
    let (url, s9) = match parse_url_tok_exec(s8) {
        Some(x) => x,
        None => {
            return None;
        },
    };
    let s10 = match expect_lit_exec(s9, ",") {
        Some(x) => x,
        None => {
            return None;
        },
    };
    let s11 = match expect_lit_exec(s10, "\"local_path\":") {
        Some(x) => x,
        None => {
            return None;
        },
    };
    let (local_path, s12) = match parse_string_tok_exec(s11) {
        Some(x) => x,
        None => {
            return None;
        },
    };
    let s13 = match expect_lit_exec(s12, "}") {
        Some(x) => x,
        None => {
            return None;
        },
    };
    let tail = skip_ws_exec(s13);
    if tail.len() > 0 {
        return None;
    }
    Some(ModelConfig { name, size, url, local_path })
}

/// Unfolding: skipping whitespace leaves a string that opens with a
/// non-whitespace character unchanged.
proof fn lemma_skip_ws_clean(s: Seq<char>)
    requires
        s.len() == 0 || !is_json_ws(s[0]),
    ensures
        skip_ws(s) == s,
{
}

/// Consuming an exact literal: with the literal in front, `expect_lit`
/// returns exactly what follows it.
proof fn lemma_expect_lit_exact(lit: Seq<char>, rest: Seq<char>)
    requires
        lit.len() > 0,
        !is_json_ws(lit[0]),
    ensures
        expect_lit(lit + rest, lit) == Some(rest),
{
    let s = lit + rest;
    assert(s[0] == lit[0]);
    lemma_skip_ws_clean(s);
    assert(s.subrange(0, lit.len() as int) =~= lit);
    assert(s.subrange(lit.len() as int, s.len() as int) =~= rest);
}

/// Consuming a rendered string literal: the token parser recovers the
/// original characters and leaves exactly what follows.
proof fn lemma_parse_string_tok_exact(v: Seq<char>, rest: Seq<char>)
    ensures
        parse_string_tok(render_string(v) + rest) == Some((v, rest)),
{
    let s = render_string(v) + rest;
    assert(s[0] == '"');
    lemma_skip_ws_clean(s);
    assert(s.drop_first() =~= escape(v) + seq!['"'] + rest);
    lemma_parse_str_escape(v, rest);
}

/// The size words name their own classes and nothing else's.
proof fn lemma_word_size_of_word(z: ModelSize)
    ensures
        word_size(size_word(z)) == Some(z),
{
    reveal_strlit("Small");
    reveal_strlit("Medium");
    reveal_strlit("Large");
    assert("Medium"@.len() == 6 && "Small"@.len() == 5 && "Large"@.len() == 5);
    assert("Large"@[0] == 'L' && "Small"@[0] == 'S');
    assert("Medium"@ != "Small"@);
    assert("Large"@ != "Small"@);
    assert("Large"@ != "Medium"@);
}

/// The persisted format round-trips: parsing a rendered configuration
/// recovers the name, the size class and the URL, and reproduces the local
/// path exactly as it was rendered. (A reader then recomputes the local path
/// for its own platform; nothing here depends on the rendered one.)
#[verifier::rlimit(100)]
pub proof fn lemma_config_round_trip(c: ModelConfig)
    ensures
        spec_parse_config(spec_render_config(c)) == Some(
            (c.name@, c.size, opt_view(c.url), c.local_path@),
        ),
{
    reveal_strlit("{");
    reveal_strlit("}");
    reveal_strlit(",");
    reveal_strlit("\"name\":");
    reveal_strlit("\"size\":");
    reveal_strlit("\"url\":");
    reveal_strlit("\"local_path\":");
    reveal_strlit("null");
    let s0 = spec_render_config(c);
    let r12 = "}"@ + Seq::<char>::empty();
    let r11 = render_string(c.local_path@) + r12;
    let r10 = "\"local_path\":"@ + r11;
    let r9 = ","@ + r10;
    let r8 = spec_render_url(opt_view(c.url)) + r9;
    let r7 = "\"url\":"@ + r8;
    let r6 = ","@ + r7;
    let r5 = render_string(size_word(c.size)) + r6;
    let r4 = "\"size\":"@ + r5;
    let r3 = ","@ + r4;
    let r2 = render_string(c.name@) + r3;
    let r1 = "\"name\":"@ + r2;
    assert(s0 =~= "{"@ + r1);
    lemma_expect_lit_exact("{"@, r1);
    lemma_expect_lit_exact("\"name\":"@, r2);
    lemma_parse_string_tok_exact(c.name@, r3);
    lemma_expect_lit_exact(","@, r4);
    lemma_expect_lit_exact("\"size\":"@, r5);
    lemma_parse_string_tok_exact(size_word(c.size), r6);
    lemma_word_size_of_word(c.size);
    lemma_expect_lit_exact(","@, r7);
    lemma_expect_lit_exact("\"url\":"@, r8);
    match opt_view(c.url) {
        None => {
            assert(r8 =~= "null"@ + r9);
            lemma_skip_ws_clean(r8);
            assert(r8.subrange(0, 4) =~= "null"@);
            assert(r8.subrange(4, r8.len() as int) =~= r9);
            assert(parse_url_tok(r8) == Some((None::<Seq<char>>, r9)));
        },
        Some(x) => {
            assert(r8 =~= render_string(x) + r9);
            assert(r8[0] == '"');
            lemma_skip_ws_clean(r8);
            assert(!is_prefix(r8, "null"@)) by {
                if is_prefix(r8, "null"@) {
                    assert(r8.subrange(0, 4)[0] == r8[0]);
                }
            }
            lemma_parse_string_tok_exact(x, r9);
            assert(parse_url_tok(r8) == Some((Some(x), r9)));
        },
    }
    lemma_expect_lit_exact(","@, r10);
    lemma_expect_lit_exact("\"local_path\":"@, r11);
    lemma_parse_string_tok_exact(c.local_path@, r12);
    lemma_expect_lit_exact("}"@, Seq::<char>::empty());
}

} // verus!
