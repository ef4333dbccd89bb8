//! The scripting bridge: what is shared by the clients that reach a library
//! through an external interpreter. The inline scripts are built by verified
//! code; a finished run counts as success only when the exit code was zero
//! and no `ERROR:`-prefixed line appeared on the error stream. Interpreter
//! resolution for generation tries the primary executable name and retries
//! under the secondary name only when the primary could not be spawned — a
//! non-zero exit from the primary is terminal.

use vstd::prelude::*;
use vstd::string::*;
use crate::strings::{is_prefix, contains_seq, starts_with, contains_sub, trim_chars, chars_of, string_of};
use crate::procio::{ProcOutput, run_process};
use crate::errors::{ModelError, ProviderKind};

verus! {

/// How one character is written inside a single-quoted script literal:
/// single quotes are backslash-escaped, and, when `esc_nl` is set, newlines
/// become the two characters `\n`.
pub open spec fn py_map_char(c: char, esc_nl: bool) -> Seq<char> {
    if c == '\'' {
        seq!['\\', '\'']
    } else if esc_nl && c == '\n' {
        seq!['\\', 'n']
    } else {
        seq![c]
    }
}

/// `s` written inside a single-quoted script literal.
pub open spec fn py_escape(s: Seq<char>, esc_nl: bool) -> Seq<char>
    decreases s.len(),
{
    if s.len() == 0 {
        Seq::<char>::empty()
    } else {
        py_map_char(s[0], esc_nl) + py_escape(s.drop_first(), esc_nl)
    }
}

/// Script escaping distributes over concatenation.
pub proof fn lemma_py_escape_concat(a: Seq<char>, b: Seq<char>, esc_nl: bool)
    ensures
        py_escape(a + b, esc_nl) == py_escape(a, esc_nl) + py_escape(b, esc_nl),
    decreases a.len(),
{
    if a.len() == 0 {
        assert(a + b =~= b);
        assert(py_escape(a, esc_nl) + py_escape(b, esc_nl) =~= py_escape(b, esc_nl));
    } else {
        assert((a + b).drop_first() =~= a.drop_first() + b);
        lemma_py_escape_concat(a.drop_first(), b, esc_nl);
        assert((a + b)[0] == a[0]);
        assert(py_map_char(a[0], esc_nl) + (py_escape(a.drop_first(), esc_nl) + py_escape(
            b,
            esc_nl,
        )) =~= (py_map_char(a[0], esc_nl) + py_escape(a.drop_first(), esc_nl)) + py_escape(
            b,
            esc_nl,
        ));
    }
}

/// Script-escaping one character.
proof fn lemma_py_escape_single(c: char, esc_nl: bool)
    ensures
        py_escape(seq![c], esc_nl) == py_map_char(c, esc_nl),
{
    assert(seq![c].drop_first() =~= Seq::<char>::empty());
    assert(py_map_char(c, esc_nl) + py_escape(seq![c].drop_first(), esc_nl) =~= py_map_char(
        c,
        esc_nl,
    ));
}

/// Appends the script-escaped form of `s` to `out`.
pub fn push_py_escaped(s: &Vec<char>, esc_nl: bool, out: &mut Vec<char>)
    ensures
        final(out)@ == old(out)@ + py_escape(s@, esc_nl),
{
    let mut i: usize = 0;
    proof {
        assert(old(out)@ + py_escape(s@.subrange(0, 0), esc_nl) =~= old(out)@);
    }
    while i < s.len()
        invariant
            i <= s@.len(),
            out@ == old(out)@ + py_escape(s@.subrange(0, i as int), esc_nl),
        decreases s@.len() - i,
    {
        let c = s[i];
        if c == '\'' {
            out.push('\\');
            out.push('\'');
        } else if esc_nl && c == '\n' {
            out.push('\\');
            out.push('n');
        } else {
            out.push(c);
        }
        i = i + 1;
        proof {
            assert(s@.subrange(0, i as int) =~= s@.subrange(0, i as int - 1) + seq![
                s@[i as int - 1],
            ]);
            lemma_py_escape_concat(s@.subrange(0, i as int - 1), seq![s@[i as int - 1]], esc_nl);
            lemma_py_escape_single(s@[i as int - 1], esc_nl);
            assert(out@ =~= old(out)@ + py_escape(s@.subrange(0, i as int), esc_nl));
        }
    }
    proof {
        assert(s@.subrange(0, s@.len() as int) =~= s@);
    }
}

/// Whether some line of `s` begins with `ERROR:`.
pub open spec fn has_error_line(s: Seq<char>) -> bool {
    is_prefix(s, "ERROR:"@) || contains_seq(s, "\nERROR:"@)
}

/// Whether some line of `err` begins with `ERROR:`, executable form.
pub fn has_error_line_exec(err: &str) -> (r: bool)
    ensures
        r == has_error_line(err@),
{
    starts_with(err, "ERROR:") || contains_sub(err, "\nERROR:")
}

/// Interprets a finished bridge run: a non-zero exit or an `ERROR:` line on
/// the error stream is a bridge failure carrying the error stream; otherwise
/// the trimmed standard output is the generated text.
pub fn interpret_bridge_output(backend: ProviderKind, o: ProcOutput) -> (r: Result<
    String,
    ModelError,
>)
    ensures
        !o.success ==> r == Err::<String, ModelError>(
            (ModelError::BridgeFailure { backend, detail: o.stderr }),
        ),
        o.success && has_error_line(o.stderr@) ==> r == Err::<String, ModelError>(
            (ModelError::BridgeFailure { backend, detail: o.stderr }),
        ),
        o.success && !has_error_line(o.stderr@) ==> (r matches Ok(t) && t@
            == crate::strings::spec_trim(o.stdout@)),
{
    if !o.success {
        return Err(ModelError::BridgeFailure { backend, detail: o.stderr });
    }
    if has_error_line_exec(o.stderr.as_str()) {
        return Err(ModelError::BridgeFailure { backend, detail: o.stderr });
    }
    let sv = chars_of(o.stdout.as_str());
    let trimmed = trim_chars(&sv);
    Ok(string_of(&trimmed))
}

/// Runs `script` under the primary interpreter name, retrying under the
/// secondary name only when the primary could not be spawned. `None` when
/// neither could be spawned.
pub fn run_script(script: &String) -> Option<ProcOutput> {
    let mut args: Vec<String> = Vec::new();
    args.push(String::from_str("-c"));
    args.push(script.clone());
    let primary = String::from_str("python");
    match run_process(&primary, &args) {
        Some(o) => Some(o),
        None => {
            let secondary = String::from_str("python3");
            run_process(&secondary, &args)
        },
    }
}

/// Whether `script` runs successfully under the primary interpreter name or,
/// failing that for any reason, under the secondary one. Used for
/// availability probes; never fails.
pub fn script_succeeds(script: &String) -> bool {
    let mut args: Vec<String> = Vec::new();
    args.push(String::from_str("-c"));
    args.push(script.clone());
    let primary = String::from_str("python");
    match run_process(&primary, &args) {
        Some(o) if o.success => true,
        _ => {
            let secondary = String::from_str("python3");
            match run_process(&secondary, &args) {
                Some(o) => o.success,
                None => false,
            }
        },
    }
}

} // verus!
