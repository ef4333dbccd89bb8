//! Path handling over plain `/`-separated strings: file name, stem and
//! extension, and the allow-list of model-weight extensions.

use vstd::prelude::*;
use vstd::string::*;
use crate::strings::{string_of, chars_of};

verus! {

/// Index of the last occurrence of `c` in `s`, or -1 when absent.
pub open spec fn last_index(s: Seq<char>, c: char) -> int
    decreases s.len(),
{
    if s.len() == 0 {
        -1
    } else if s[s.len() - 1] == c {
        s.len() - 1
    } else {
        last_index(s.drop_last(), c)
    }
}

pub proof fn lemma_last_index_bounds(s: Seq<char>, c: char)
    ensures
        -1 <= last_index(s, c) < s.len(),
        last_index(s, c) >= 0 ==> s[last_index(s, c)] == c,
        forall|j: int| last_index(s, c) < j < s.len() ==> s[j] != c,
    decreases s.len(),
{
    if s.len() > 0 && s[s.len() - 1] != c {
        lemma_last_index_bounds(s.drop_last(), c);
        assert(forall|j: int| 0 <= j < s.len() - 1 ==> s[j] == s.drop_last()[j]);
    }
}

/// `last_index` on a prefix agrees with `last_index` on the whole when no
/// occurrence of `c` lies at or beyond the prefix end.
proof fn lemma_last_index_prefix(s: Seq<char>, c: char, i: int)
    requires
        0 <= i <= s.len(),
        forall|j: int| i <= j < s.len() ==> s[j] != c,
    ensures
        last_index(s, c) == last_index(s.subrange(0, i), c),
    decreases s.len() - i,
{
    if i < s.len() {
        lemma_last_index_prefix(s, c, i + 1);
        assert(s.subrange(0, i + 1).drop_last() =~= s.subrange(0, i));
    } else {
        assert(s.subrange(0, i) =~= s);
    }
}

/// Index of the last occurrence of `c`, executable form.
pub fn last_index_exec(v: &Vec<char>, c: char) -> (r: Option<usize>)
    ensures
        match r {
            Some(i) => i == last_index(v@, c),
            None => last_index(v@, c) == -1,
        },
{
    let mut i: usize = v.len();
    proof {
        assert(v@.subrange(0, v@.len() as int) =~= v@);
    }
    while i > 0
        invariant
            i <= v.len(),
            last_index(v@, c) == last_index(v@.subrange(0, i as int), c),
        decreases i,
    {
        if v[i - 1] == c {
            proof {
                assert(v@.subrange(0, i as int)[i - 1] == c);
            }
            return Some(i - 1);
        }
        proof {
            assert(v@.subrange(0, i as int).drop_last() =~= v@.subrange(0, i as int - 1));
            assert(v@.subrange(0, i as int)[i - 1] == v@[i as int - 1]);
        }
        i = i - 1;
    }
    proof {
        assert(v@.subrange(0, 0) =~= Seq::<char>::empty());
    }
    None
}

/// The part of `path` after its last `/`; the whole of it when it has none.
pub open spec fn spec_file_name(path: Seq<char>) -> Seq<char> {
    path.subrange(last_index(path, '/') + 1, path.len() as int)
}

/// The part of a file name after its last `.`, when that dot is neither
/// first nor absent; empty otherwise.
pub open spec fn spec_extension(name: Seq<char>) -> Seq<char> {
    if last_index(name, '.') > 0 {
        name.subrange(last_index(name, '.') + 1, name.len() as int)
    } else {
        Seq::<char>::empty()
    }
}

/// The part of a file name before its last `.`, when that dot is neither
/// first nor absent; the whole name otherwise.
pub open spec fn spec_stem(name: Seq<char>) -> Seq<char> {
    if last_index(name, '.') > 0 {
        name.subrange(0, last_index(name, '.'))
    } else {
        name
    }
}

/// The file-name part of a path string.
pub fn file_name_of(path: &str) -> (r: String)
    ensures
        r@ == spec_file_name(path@),
{
    let n = path.unicode_len();
    let v = chars_of(path);
    let cut: usize = match last_index_exec(&v, '/') {
        Some(i) => {
            proof {
                lemma_last_index_bounds(path@, '/');
            }
            i + 1
        },
        None => 0,
    };
    String::from_str(path.substring_char(cut, n))
}

/// The extension of a file name.
pub fn extension_of(name: &str) -> (r: String)
    ensures
        r@ == spec_extension(name@),
{
    let n = name.unicode_len();
    let v = chars_of(name);
    match last_index_exec(&v, '.') {
        Some(i) if i > 0 => {
            proof {
                lemma_last_index_bounds(name@, '.');
            }
            String::from_str(name.substring_char(i + 1, n))
        },
        _ => {
            let empty = String::new();
            proof {
                assert(empty@ =~= spec_extension(name@));
            }
            empty
        },
    }
}

/// The stem of a file name.
pub fn stem_of(name: &str) -> (r: String)
    ensures
        r@ == spec_stem(name@),
{
    let v = chars_of(name);
    match last_index_exec(&v, '.') {
        Some(i) if i > 0 => {
            proof {
                lemma_last_index_bounds(name@, '.');
            }
            String::from_str(name.substring_char(0, i))
        },
        _ => String::from_str(name),
    }
}

/// The recognized model-weight extensions.
pub open spec fn is_weight_ext(e: Seq<char>) -> bool {
    ||| e == "gguf"@
    ||| e == "bin"@
    ||| e == "safetensors"@
    ||| e == "pt"@
    ||| e == "pth"@
    ||| e == "onnx"@
    ||| e == "model"@
}

/// Whether `a` and `b` hold the same characters.
pub fn eq_str(a: &str, b: &str) -> (r: bool)
    ensures
        r == (a@ == b@),
{
    let n = a.unicode_len();
    let m = b.unicode_len();
    if n != m {
        return false;
    }
    let r = crate::strings::starts_with(a, b);
    proof {
        assert(a@.subrange(0, n as int) =~= a@);
    }
    r
}

/// Whether `e` is a recognized model-weight extension.
pub fn weight_ext(e: &str) -> (r: bool)
    ensures
        r == is_weight_ext(e@),
{
    eq_str(e, "gguf") || eq_str(e, "bin") || eq_str(e, "safetensors") || eq_str(e, "pt") || eq_str(
        e,
        "pth",
    ) || eq_str(e, "onnx") || eq_str(e, "model")
}

/// `dir` and `name` joined with a single `/`.
pub open spec fn spec_join(dir: Seq<char>, name: Seq<char>) -> Seq<char> {
    dir + seq!['/'] + name
}

/// Joins a directory and a file name with `/`.
pub fn join_path(dir: &str, name: &str) -> (r: String)
    ensures
        r@ == spec_join(dir@, name@),
{
    let mut v = chars_of(dir);
    v.push('/');
    let mut w = chars_of(name);
    let mut i: usize = 0;
    while i < w.len()
        invariant
            i <= w.len(),
            w@ == name@,
            v@ == dir@ + seq!['/'] + name@.subrange(0, i as int),
        decreases w.len() - i,
    {
        v.push(w[i]);
        i = i + 1;
        proof {
            assert(v@ =~= dir@ + seq!['/'] + name@.subrange(0, i as int));
        }
    }
    proof {
        assert(v@ =~= spec_join(dir@, name@));
    }
    string_of(&v)
}

} // verus!
