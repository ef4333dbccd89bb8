//! The fallback client that reaches the daemon's library through an external
//! interpreter, used when the daemon's HTTP server is not answering.
//! Availability means the library can be imported; generation runs an inline
//! script whose output is interpreted by the shared bridge rules.

use vstd::prelude::*;
use vstd::string::*;
use crate::strings::{push_str_chars, string_of, chars_of};
use crate::bridge::{py_escape, push_py_escaped, run_script, script_succeeds, interpret_bridge_output};
use crate::ollama::{spec_strip_ollama_tag, strip_ollama_tag};
use crate::errors::{ModelError, ProviderKind, spec_error_backend};

verus! {

/// The inline script that generates with `model` on `prompt`: it prints the
/// reply on standard output, or an `ERROR:` line on the error stream and a
/// non-zero exit.
pub open spec fn spec_generate_script(model: Seq<char>, prompt: Seq<char>) -> Seq<char> {
    "\nimport ollama\nimport sys\n\ntry:\n    response = ollama.generate(\n        model='"@
        + py_escape(model, false) + "',\n        prompt='''"@ + py_escape(prompt, true)
        + "'''\n    )\n    print(response['response'])\nexcept Exception as e:\n    print(f\"ERROR: {e}\", file=sys.stderr)\n    sys.exit(1)\n"@
}

/// Builds the generation script.
pub fn build_generate_script(model: &String, prompt: &String) -> (r: String)
    ensures
        r@ == spec_generate_script(model@, prompt@),
{
    let mut out: Vec<char> = Vec::new();
    push_str_chars(
        "\nimport ollama\nimport sys\n\ntry:\n    response = ollama.generate(\n        model='",
        &mut out,
    );
    let mv = chars_of(model.as_str());
    push_py_escaped(&mv, false, &mut out);
    push_str_chars("',\n        prompt='''", &mut out);
    let pv = chars_of(prompt.as_str());
    push_py_escaped(&pv, true, &mut out);
    push_str_chars(
        "'''\n    )\n    print(response['response'])\nexcept Exception as e:\n    print(f\"ERROR: {e}\", file=sys.stderr)\n    sys.exit(1)\n",
        &mut out,
    );
    proof {
        assert(out@ =~= spec_generate_script(model@, prompt@));
    }
    string_of(&out)
}

/// The client: the bare model name the scripts speak of.
#[derive(Clone, Debug)]
pub struct PythonOllamaClient {
    pub model_name: String,
}

impl PythonOllamaClient {
    /// An equal copy of the client.
    pub fn duplicate(&self) -> (r: Self)
        ensures
            r == *self,
    {
        PythonOllamaClient { model_name: self.model_name.clone() }
    }

    /// A client for `model_name`; a leading `ollama:` tag is removed.
    pub fn new(model_name: String) -> (r: Self)
        ensures
            r.model_name@ == spec_strip_ollama_tag(model_name@),
    {
        PythonOllamaClient { model_name: strip_ollama_tag(model_name) }
    }

    /// Whether the library can be imported under either interpreter name.
    /// Never fails.
    pub fn check_available(&self) -> bool {
        let probe = String::from_str("import ollama; print('ok')");
        script_succeeds(&probe)
    }

    /// Runs one generation script. A missing interpreter is a bridge
    /// failure; a finished run is interpreted exactly by
    /// `interpret_bridge_output`. Every error names this backend, and a
    /// success is some run's trimmed standard output.
    pub fn generate(&self, prompt: &String) -> (r: Result<String, ModelError>)
        ensures
            r matches Err(e) ==> spec_error_backend(e) == Some(ProviderKind::PythonOllama),
            r matches Ok(t) ==> exists|o: Seq<char>| t@ == crate::strings::spec_trim(o),
    {
        let script = build_generate_script(&self.model_name, prompt);
        match run_script(&script) {
            Some(o) => {
                let ghost so = o.stdout@;
                let r = interpret_bridge_output(ProviderKind::PythonOllama, o);
                proof {
                    if r is Ok {
                        assert(r->Ok_0@ == crate::strings::spec_trim(so));
                    }
                }
                r
            },
            None => Err(
                ModelError::BridgeFailure {
                    backend: ProviderKind::PythonOllama,
                    detail: String::from_str("interpreter could not be spawned"),
                },
            ),
        }
    }
}

} // verus!
