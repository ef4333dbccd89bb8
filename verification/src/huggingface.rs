//! The client that reaches the tensor library through an external
//! interpreter. Availability means the library can be imported. Generation
//! runs an inline script that, in the system's current state, always ends in
//! an `ERROR:` line: on-device inference is not wired up, and the script
//! says so; the bridge rules turn that into a failure.

use vstd::prelude::*;
use vstd::string::*;
use crate::strings::{push_str_chars, string_of, chars_of};
use crate::pathstr::{spec_file_name, file_name_of};
use crate::bridge::{run_script, script_succeeds, interpret_bridge_output};
use crate::errors::{ModelError, ProviderKind, spec_error_backend};

verus! {

/// How one character of a path is written inside the script's double-quoted
/// literal: backslashes are doubled.
pub open spec fn bs_map_char(c: char) -> Seq<char> {
    if c == '\\' {
        seq!['\\', '\\']
    } else {
        seq![c]
    }
}

/// A path written inside the script's double-quoted literal.
pub open spec fn bs_escape(s: Seq<char>) -> Seq<char>
    decreases s.len(),
{
    if s.len() == 0 {
        Seq::<char>::empty()
    } else {
        bs_map_char(s[0]) + bs_escape(s.drop_first())
    }
}

/// Backslash doubling distributes over concatenation.
proof fn lemma_bs_escape_concat(a: Seq<char>, b: Seq<char>)
    ensures
        bs_escape(a + b) == bs_escape(a) + bs_escape(b),
    decreases a.len(),
{
    if a.len() == 0 {
        assert(a + b =~= b);
        assert(bs_escape(a) + bs_escape(b) =~= bs_escape(b));
    } else {
        assert((a + b).drop_first() =~= a.drop_first() + b);
        lemma_bs_escape_concat(a.drop_first(), b);
        assert((a + b)[0] == a[0]);
        assert(bs_map_char(a[0]) + (bs_escape(a.drop_first()) + bs_escape(b)) =~= (bs_map_char(
            a[0],
        ) + bs_escape(a.drop_first())) + bs_escape(b));
    }
}

/// Backslash-doubling one character.
proof fn lemma_bs_escape_single(c: char)
    ensures
        bs_escape(seq![c]) == bs_map_char(c),
{
    assert(seq![c].drop_first() =~= Seq::<char>::empty());
    assert(bs_map_char(c) + bs_escape(seq![c].drop_first()) =~= bs_map_char(c));
}

/// Appends the backslash-doubled form of `s` to `out`.
fn push_bs_escaped(s: &Vec<char>, out: &mut Vec<char>)
    ensures
        final(out)@ == old(out)@ + bs_escape(s@),
{
    let mut i: usize = 0;
    proof {
        assert(old(out)@ + bs_escape(s@.subrange(0, 0)) =~= old(out)@);
    }
    while i < s.len()
        invariant
            i <= s@.len(),
            out@ == old(out)@ + bs_escape(s@.subrange(0, i as int)),
        decreases s@.len() - i,
    {
        let c = s[i];
        if c == '\\' {
            out.push('\\');
            out.push('\\');
        } else {
            out.push(c);
        }
        i = i + 1;
        proof {
            assert(s@.subrange(0, i as int) =~= s@.subrange(0, i as int - 1) + seq![
                s@[i as int - 1],
            ]);
            lemma_bs_escape_concat(s@.subrange(0, i as int - 1), seq![s@[i as int - 1]]);
            lemma_bs_escape_single(s@[i as int - 1]);
            assert(out@ =~= old(out)@ + bs_escape(s@.subrange(0, i as int)));
        }
    }
    proof {
        assert(s@.subrange(0, s@.len() as int) =~= s@);
    }
}

/// The inline script that would generate with the model at `path`. It checks
/// that the tensor library imports, then reports that on-device inference is
/// not wired up: an `ERROR:` line and a non-zero exit, always.
pub open spec fn spec_hf_script(path: Seq<char>) -> Seq<char> {
    "\nimport sys\n\ntry:\n    from transformers import AutoTokenizer, AutoModelForCausalLM\n    model_path = r\""@
        + bs_escape(path)
        + "\"\n    print(\"Loading model from: \" + model_path, file=sys.stderr)\n    print(\"Hugging Face model inference requires proper model loading setup.\")\n    print(\"Please use Ollama or LM Studio for now, or install transformers properly.\")\n    print(\"ERROR: Hugging Face inference not fully implemented\", file=sys.stderr)\n    sys.exit(1)\nexcept ImportError as e:\n    print(f\"ERROR: transformers not installed: {e}\", file=sys.stderr)\n    sys.exit(1)\nexcept Exception as e:\n    print(f\"ERROR: {e}\", file=sys.stderr)\n    sys.exit(1)\n"@
}

/// Builds the generation script for the model at `path`.
pub fn build_hf_script(path: &String) -> (r: String)
    ensures
        r@ == spec_hf_script(path@),
{
    let mut out: Vec<char> = Vec::new();
    push_str_chars(
        "\nimport sys\n\ntry:\n    from transformers import AutoTokenizer, AutoModelForCausalLM\n    model_path = r\"",
        &mut out,
    );
    let pv = chars_of(path.as_str());
    push_bs_escaped(&pv, &mut out);
    push_str_chars(
        "\"\n    print(\"Loading model from: \" + model_path, file=sys.stderr)\n    print(\"Hugging Face model inference requires proper model loading setup.\")\n    print(\"Please use Ollama or LM Studio for now, or install transformers properly.\")\n    print(\"ERROR: Hugging Face inference not fully implemented\", file=sys.stderr)\n    sys.exit(1)\nexcept ImportError as e:\n    print(f\"ERROR: transformers not installed: {e}\", file=sys.stderr)\n    sys.exit(1)\nexcept Exception as e:\n    print(f\"ERROR: {e}\", file=sys.stderr)\n    sys.exit(1)\n",
        &mut out,
    );
    proof {
        assert(out@ =~= spec_hf_script(path@));
    }
    string_of(&out)
}

/// The client: the path of the model it stands for, and that path's file
/// name for display.
#[derive(Clone, Debug)]
pub struct HuggingFaceClient {
    pub model_path: String,
    pub model_name: String,
}

impl HuggingFaceClient {
    /// An equal copy of the client.
    pub fn duplicate(&self) -> (r: Self)
        ensures
            r == *self,
    {
        HuggingFaceClient {
            model_path: self.model_path.clone(),
            model_name: self.model_name.clone(),
        }
    }

    /// A client for the model at `model_path`, named by its file name.
    pub fn new(model_path: String) -> (r: Self)
        ensures
            r.model_path == model_path,
            r.model_name@ == spec_file_name(model_path@),
    {
        let model_name = file_name_of(model_path.as_str());
        HuggingFaceClient { model_path, model_name }
    }

    /// Whether the tensor library can be imported under either interpreter
    /// name. Never fails.
    pub fn check_available(&self) -> bool {
        let probe = String::from_str("import transformers; print('ok')");
        script_succeeds(&probe)
    }

    /// Runs one generation script. A missing interpreter is a bridge
    /// failure; a finished run is interpreted exactly by
    /// `interpret_bridge_output`. Every error names this backend, and a
    /// success is some run's trimmed standard output.
    pub fn generate(&self, _prompt: &String) -> (r: Result<String, ModelError>)
        ensures
            r matches Err(e) ==> spec_error_backend(e) == Some(ProviderKind::HuggingFaceBridge),
            r matches Ok(t) ==> exists|o: Seq<char>| t@ == crate::strings::spec_trim(o),
    {
        let script = build_hf_script(&self.model_path);
        match run_script(&script) {
            Some(o) => {
                let ghost so = o.stdout@;
                let r = interpret_bridge_output(ProviderKind::HuggingFaceBridge, o);
                proof {
                    if r is Ok {
                        assert(r->Ok_0@ == crate::strings::spec_trim(so));
                    }
                }
                r
            },
            None => Err(
                ModelError::BridgeFailure {
                    backend: ProviderKind::HuggingFaceBridge,
                    detail: String::from_str("interpreter could not be spawned"),
                },
            ),
        }
    }
}

} // verus!
