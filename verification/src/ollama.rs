//! The client for the daemon serving models over its own HTTP API on the
//! fixed local port 11434. Availability is probed with `GET /api/tags`;
//! generation posts a JSON request to `/api/generate` with fixed sampling
//! parameters and reads the `response` field of the reply. Building the
//! request and interpreting the reply are verified; only the HTTP transport
//! and the JSON field extraction are trusted.

use vstd::prelude::*;
use vstd::string::*;
use crate::strings::{is_prefix, starts_with, strip_prefix_str, push_str_chars, string_of, chars_of};
use crate::jsontext::{render_string, push_json_string};
use crate::jsonio::{generate_reply_text, extract_generate_text, model_list_names, extract_model_names};
use crate::httpio::http_get;
use crate::httpio::http_post_json;
use crate::errors::{ModelError, ProviderKind, spec_error_backend};

verus! {

/// HTTP statuses that count as success.
pub open spec fn spec_is_success(status: u16) -> bool {
    200 <= status < 300
}

/// Whether `status` counts as success, executable form.
pub fn is_success_status(status: u16) -> (r: bool)
    ensures
        r == spec_is_success(status),
{
    200 <= status && status < 300
}

/// `s` with a leading `ollama:` tag removed.
pub open spec fn spec_strip_ollama_tag(s: Seq<char>) -> Seq<char> {
    if is_prefix(s, "ollama:"@) {
        s.subrange("ollama:"@.len() as int, s.len() as int)
    } else {
        s
    }
}

/// Removes a leading `ollama:` tag from a model name.
pub fn strip_ollama_tag(name: String) -> (r: String)
    ensures
        r@ == spec_strip_ollama_tag(name@),
{
    if starts_with(name.as_str(), "ollama:") {
        strip_prefix_str(name.as_str(), "ollama:")
    } else {
        name
    }
}

/// The generation request body for `model` and `prompt`: non-streaming, with
/// the fixed sampling parameters temperature 0.7, top_p 0.9, top_k 40.
pub open spec fn spec_generate_request(model: Seq<char>, prompt: Seq<char>) -> Seq<char> {
    "{\"model\":"@ + render_string(model) + ",\"prompt\":"@ + render_string(prompt)
        + ",\"stream\":false,\"options\":{\"temperature\":0.7,\"top_p\":0.9,\"top_k\":40}}"@
}

/// Builds the generation request body.
pub fn build_generate_request(model: &String, prompt: &String) -> (r: String)
    ensures
        r@ == spec_generate_request(model@, prompt@),
{
    let mut out: Vec<char> = Vec::new();
    push_str_chars("{\"model\":", &mut out);
    let mv = chars_of(model.as_str());
    push_json_string(&mv, &mut out);
    push_str_chars(",\"prompt\":", &mut out);
    let pv = chars_of(prompt.as_str());
    push_json_string(&pv, &mut out);
    push_str_chars(",\"stream\":false,\"options\":{\"temperature\":0.7,\"top_p\":0.9,\"top_k\":40}}", &mut out);
    proof {
        assert(out@ =~= spec_generate_request(model@, prompt@));
    }
    string_of(&out)
}

/// Some reply of the daemon carries this text in its `response` field.
pub open spec fn some_generate_reply(t: Seq<char>) -> bool {
    exists|body: Seq<char>| generate_reply_text(body) == Some(t)
}

/// Some reply of the daemon lists exactly these model names.
pub open spec fn some_model_list(names: Seq<Seq<char>>) -> bool {
    exists|body: Seq<char>| model_list_names(body) == Some(names)
}

/// The client: a base URL and the bare model name.
#[derive(Clone, Debug)]
pub struct OllamaClient {
    pub base_url: String,
    pub model_name: String,
}

/// Interprets a generation reply: a non-success status is an API error
/// carrying status and body; a success reply yields its `response` field, or
/// a malformed-response error when the field is missing.
pub fn interpret_generate_reply(status: u16, body: String) -> (r: Result<String, ModelError>)
    ensures
        !spec_is_success(status) ==> r == Err::<String, ModelError>(
            (ModelError::ApiError { backend: ProviderKind::OllamaServer, status, body }),
        ),
        spec_is_success(status) ==> match generate_reply_text(body@) {
            Some(t) => r matches Ok(out) && out@ == t,
            None => r == Err::<String, ModelError>(
                (ModelError::MalformedResponse { backend: ProviderKind::OllamaServer }),
            ),
        },
{
    if !is_success_status(status) {
        return Err(ModelError::ApiError { backend: ProviderKind::OllamaServer, status, body });
    }
    match extract_generate_text(&body) {
        Some(t) => Ok(t),
        None => Err(ModelError::MalformedResponse { backend: ProviderKind::OllamaServer }),
    }
}

/// Interprets a listing reply from `GET /api/tags`: a non-success status is
/// an API error; a success reply yields the names of its `models` array, or
/// a malformed-response error when that array is missing.
pub fn interpret_tags_reply(status: u16, body: String) -> (r: Result<Vec<String>, ModelError>)
    ensures
        !spec_is_success(status) ==> r == Err::<Vec<String>, ModelError>(
            (ModelError::ApiError { backend: ProviderKind::OllamaServer, status, body }),
        ),
        spec_is_success(status) ==> match model_list_names(body@) {
            Some(names) => r matches Ok(out) && out@.map_values(|s: String| s@) == names,
            None => r == Err::<Vec<String>, ModelError>(
                (ModelError::MalformedResponse { backend: ProviderKind::OllamaServer }),
            ),
        },
{
    if !is_success_status(status) {
        return Err(ModelError::ApiError { backend: ProviderKind::OllamaServer, status, body });
    }
    match extract_model_names(&body) {
        Some(names) => Ok(names),
        None => Err(ModelError::MalformedResponse { backend: ProviderKind::OllamaServer }),
    }
}

impl OllamaClient {
    /// An equal copy of the client.
    pub fn duplicate(&self) -> (r: Self)
        ensures
            r == *self,
    {
        OllamaClient { base_url: self.base_url.clone(), model_name: self.model_name.clone() }
    }

    /// A client for the daemon on its fixed local port. A leading `ollama:`
    /// tag on the name is removed.
    pub fn new(model_name: String) -> (r: Self)
        ensures
            r.model_name@ == spec_strip_ollama_tag(model_name@),
            r.base_url@ == "http://localhost:11434"@,
    {
        OllamaClient {
            base_url: String::from_str("http://localhost:11434"),
            model_name: strip_ollama_tag(model_name),
        }
    }

    /// A client for a daemon at the given base URL.
    pub fn with_base_url(model_name: String, base_url: String) -> (r: Self)
        ensures
            r.model_name@ == spec_strip_ollama_tag(model_name@),
            r.base_url == base_url,
    {
        OllamaClient { base_url, model_name: strip_ollama_tag(model_name) }
    }

    /// Probes `GET /api/tags` under the client's default request timeout.
    /// Network failures collapse to `false`; this never fails.
    pub fn check_available(&self) -> bool {
        let url = self.base_url.clone().concat("/api/tags");
        match http_get(&url, 30) {
            Some(rep) => is_success_status(rep.status),
            None => false,
        }
    }

    /// Runs one generation request. A connection failure is reported as the
    /// backend being unavailable; a reply is interpreted exactly by
    /// `interpret_generate_reply`. Every error names this backend, and a
    /// success is the `response` field of some success reply.
    pub fn generate(&self, prompt: &String) -> (r: Result<String, ModelError>)
        ensures
            r matches Err(e) ==> spec_error_backend(e) == Some(ProviderKind::OllamaServer),
            r matches Ok(t) ==> some_generate_reply(t@),
    {
        let url = self.base_url.clone().concat("/api/generate");
        let req = build_generate_request(&self.model_name, prompt);
        match http_post_json(&url, &req) {
            Some(rep) => {
                let ghost b = rep.body@;
                let r = interpret_generate_reply(rep.status, rep.body);
                proof {
                    if r is Ok {
                        assert(generate_reply_text(b) == Some(r->Ok_0@));
                    }
                }
                r
            },
            None => Err(ModelError::BackendUnavailable { backend: ProviderKind::OllamaServer }),
        }
    }

    /// Lists the models the daemon on the fixed local port serves. A
    /// connection failure is reported as the backend being unavailable; a
    /// reply is interpreted exactly by `interpret_tags_reply`. Every error
    /// names this backend, and a success is the model list of some success
    /// reply.
    pub fn list_models() -> (r: Result<Vec<String>, ModelError>)
        ensures
            r matches Err(e) ==> spec_error_backend(e) == Some(ProviderKind::OllamaServer),
            r matches Ok(names) ==> some_model_list(names@.map_values(|s: String| s@)),
    {
        let url = String::from_str("http://localhost:11434/api/tags");
        match http_get(&url, 30) {
            Some(rep) => {
                let ghost b = rep.body@;
                let r = interpret_tags_reply(rep.status, rep.body);
                proof {
                    if r is Ok {
                        assert(model_list_names(b) == Some(
                            r->Ok_0@.map_values(|s: String| s@),
                        ));
                    }
                }
                r
            },
            None => Err(
                ModelError::BackendUnavailable { backend: ProviderKind::OllamaServer },
            ),
        }
    }
}

} // verus!
