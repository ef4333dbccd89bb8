//! The client for the daemon serving an OpenAI-style chat API on the fixed
//! local port 1234. Availability is probed with `GET /v1/models`; generation
//! posts a single-user-message chat request to `/v1/chat/completions` and
//! reads `choices[0].message.content` from the reply. Building the request
//! and interpreting the reply are verified; only the HTTP transport and the
//! JSON field extraction are trusted.

use vstd::prelude::*;
use vstd::string::*;
use crate::strings::{push_str_chars, string_of, chars_of};
use crate::pathstr::{file_name_of, stem_of};
use crate::jsontext::{render_string, push_json_string};
use crate::jsonio::{chat_reply_text, extract_chat_text};
use crate::httpio::{http_get, http_post_json};
use crate::ollama::{spec_is_success, is_success_status};
use crate::errors::{ModelError, ProviderKind, spec_error_backend};

verus! {

/// The chat request body for `model` and `prompt`: one user message,
/// temperature 0.7, non-streaming.
pub open spec fn spec_chat_request(model: Seq<char>, prompt: Seq<char>) -> Seq<char> {
    "{\"model\":"@ + render_string(model) + ",\"messages\":[{\"role\":\"user\",\"content\":"@
        + render_string(prompt) + "}],\"temperature\":0.7,\"stream\":false}"@
}

/// Builds the chat request body.
pub fn build_chat_request(model: &String, prompt: &String) -> (r: String)
    ensures
        r@ == spec_chat_request(model@, prompt@),
{
    let mut out: Vec<char> = Vec::new();
    push_str_chars("{\"model\":", &mut out);
    let mv = chars_of(model.as_str());
    push_json_string(&mv, &mut out);
    push_str_chars(",\"messages\":[{\"role\":\"user\",\"content\":", &mut out);
    let pv = chars_of(prompt.as_str());
    push_json_string(&pv, &mut out);
    push_str_chars("}],\"temperature\":0.7,\"stream\":false}", &mut out);
    proof {
        assert(out@ =~= spec_chat_request(model@, prompt@));
    }
    string_of(&out)
}

/// Interprets a chat reply: a non-success status is an API error carrying
/// status and body; a success reply yields the content of its first choice,
/// or a malformed-response error when the choices are missing or empty.
pub fn interpret_chat_reply(status: u16, body: String) -> (r: Result<String, ModelError>)
    ensures
        !spec_is_success(status) ==> r == Err::<String, ModelError>(
            (ModelError::ApiError { backend: ProviderKind::LmStudio, status, body }),
        ),
        spec_is_success(status) ==> match chat_reply_text(body@) {
            Some(t) => r matches Ok(out) && out@ == t,
            None => r == Err::<String, ModelError>(
                (ModelError::MalformedResponse { backend: ProviderKind::LmStudio }),
            ),
        },
{
    if !is_success_status(status) {
        return Err(ModelError::ApiError { backend: ProviderKind::LmStudio, status, body });
    }
    match extract_chat_text(&body) {
        Some(t) => Ok(t),
        None => Err(ModelError::MalformedResponse { backend: ProviderKind::LmStudio }),
    }
}

/// Some reply of the daemon carries this text as its first choice.
pub open spec fn some_chat_reply(t: Seq<char>) -> bool {
    exists|body: Seq<char>| chat_reply_text(body) == Some(t)
}

/// The client: the path of the model file it stands for, and a base URL.
#[derive(Clone, Debug)]
pub struct LMStudioClient {
    pub model_path: String,
    pub base_url: String,
}

impl LMStudioClient {
    /// An equal copy of the client.
    pub fn duplicate(&self) -> (r: Self)
        ensures
            r == *self,
    {
        LMStudioClient { model_path: self.model_path.clone(), base_url: self.base_url.clone() }
    }

    /// A client for the daemon on its fixed local port, standing for the
    /// model file at `model_path`.
    pub fn new(model_path: String) -> (r: Self)
        ensures
            r.model_path == model_path,
            r.base_url@ == "http://localhost:1234"@,
    {
        LMStudioClient { model_path, base_url: String::from_str("http://localhost:1234") }
    }

    /// A client for a daemon at the given base URL.
    pub fn with_base_url(model_path: String, base_url: String) -> (r: Self)
        ensures
            r.model_path == model_path,
            r.base_url == base_url,
    {
        LMStudioClient { model_path, base_url }
    }

    /// Probes `GET /v1/models` under a two-second timeout. Network failures
    /// collapse to `false`; this never fails.
    pub fn check_available(&self) -> bool {
        let url = self.base_url.clone().concat("/v1/models");
        match http_get(&url, 2) {
            Some(rep) => is_success_status(rep.status),
            None => false,
        }
    }

    /// Runs one chat request, naming the model by the stem of its file name
    /// (a fixed fallback name when the path has no stem). A connection
    /// failure is reported as the backend being unavailable; a reply is
    /// interpreted exactly by `interpret_chat_reply`. Every error names this
    /// backend, and a success is the first-choice content of some success
    /// reply.
    pub fn generate(&self, prompt: &String) -> (r: Result<String, ModelError>)
        ensures
            r matches Err(e) ==> spec_error_backend(e) == Some(ProviderKind::LmStudio),
            r matches Ok(t) ==> some_chat_reply(t@),
    {
        let url = self.base_url.clone().concat("/v1/chat/completions");
        let fname = file_name_of(self.model_path.as_str());
        let stem = stem_of(fname.as_str());
        let model = if stem.as_str().unicode_len() == 0 {
            String::from_str("model")
        } else {
            stem
        };
        let req = build_chat_request(&model, prompt);
        match http_post_json(&url, &req) {
            Some(rep) => {
                let ghost b = rep.body@;
                let r = interpret_chat_reply(rep.status, rep.body);
                proof {
                    if r is Ok {
                        assert(chat_reply_text(b) == Some(r->Ok_0@));
                    }
                }
                r
            },
            None => Err(ModelError::BackendUnavailable { backend: ProviderKind::LmStudio }),
        }
    }
}

} // verus!
