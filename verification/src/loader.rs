//! The model loader: the decision core. Construction inspects the identifier
//! once — a daemon URI, an existing file, or an opaque name — probes the
//! candidate providers in a fixed priority order, and binds at most one for
//! the loader's lifetime. `load` is the first point where an unavailable
//! backend becomes a hard error; `infer` dispatches to the bound provider and
//! falls back to a fixed echo reply when nothing is bound.

use vstd::prelude::*;
use vstd::string::*;
use crate::strings::{is_prefix, contains_seq, starts_with, strip_prefix_str, push_str_chars, string_of, chars_of, lower_seq, lower_chars, contains_chars};
use crate::pathstr::{spec_file_name, spec_extension, spec_stem, is_weight_ext, file_name_of, extension_of, stem_of, weight_ext};
use crate::placeholder::{is_placeholder_text, is_placeholder_content};
use crate::fsio::{FsNodeKind, fs_node_kind, fs_read_to_string};
use crate::ollama::OllamaClient;
use crate::python_ollama::PythonOllamaClient;
use crate::lm_studio::LMStudioClient;
use crate::huggingface::HuggingFaceClient;
use crate::errors::{ModelError, ProviderKind};

verus! {

/// Whether the identifier is a daemon URI.
pub open spec fn is_daemon_uri(path: Seq<char>) -> bool {
    is_prefix(path, "ollama://"@)
}

/// The model name inside a daemon URI.
pub open spec fn spec_uri_name(path: Seq<char>) -> Seq<char> {
    path.subrange("ollama://"@.len() as int, path.len() as int)
}

/// Whether a file path looks like it lives under a scripting-bridge cache
/// location: its lowered form mentions the hub name or a cache directory.
pub open spec fn spec_in_cache(path: Seq<char>) -> bool {
    contains_seq(lower_seq(path), "huggingface"@) || contains_seq(lower_seq(path), ".cache"@)
}

/// What the filesystem showed about `contents`: a placeholder artifact?
pub open spec fn contents_placeholder(contents: Option<String>) -> bool {
    match contents {
        Some(c) => is_placeholder_text(c@),
        None => false,
    }
}

/// The deterministic classification of a loader identifier, given what the
/// filesystem showed about it.
pub enum PathClass {
    /// A daemon URI carrying this bare model name.
    DaemonUri { raw: String },
    /// An existing file that opens with the placeholder sentinel.
    PlaceholderFile,
    /// An existing real file with a recognized weight extension.
    WeightFile { stem: String, in_cache: bool },
    /// An existing file of any other kind.
    OtherFile,
    /// Nothing on disk answers to the identifier.
    NotAFile,
}

/// Classifies a loader identifier. The decision order is fixed: the daemon
/// URI scheme wins, then an existing file is a placeholder, a weight file,
/// or other; everything else is not a file.
pub fn classify_path(path: &String, node: FsNodeKind, contents: &Option<String>) -> (r: PathClass)
    ensures
        is_daemon_uri(path@) ==> (r matches PathClass::DaemonUri { raw } && raw@ == spec_uri_name(
            path@,
        )),
        !is_daemon_uri(path@) && !(node is File) ==> r is NotAFile,
        !is_daemon_uri(path@) && node is File && contents_placeholder(*contents)
            ==> r is PlaceholderFile,
        !is_daemon_uri(path@) && node is File && !contents_placeholder(*contents) && is_weight_ext(
            spec_extension(spec_file_name(path@)),
        ) ==> (r matches PathClass::WeightFile { stem, in_cache } && stem@ == spec_stem(
            spec_file_name(path@),
        ) && in_cache == spec_in_cache(path@)),
        !is_daemon_uri(path@) && node is File && !contents_placeholder(*contents)
            && !is_weight_ext(spec_extension(spec_file_name(path@))) ==> r is OtherFile,
{
    if starts_with(path.as_str(), "ollama://") {
        let raw = strip_prefix_str(path.as_str(), "ollama://");
        return PathClass::DaemonUri { raw };
    }
    match node {
        FsNodeKind::File => {
            let ph = match contents {
                Some(c) => is_placeholder_content(c.as_str()),
                None => false,
            };
            if ph {
                return PathClass::PlaceholderFile;
            }
            let fname = file_name_of(path.as_str());
            let ext = extension_of(fname.as_str());
            if weight_ext(ext.as_str()) {
                let stem = stem_of(fname.as_str());
                let pv = chars_of(path.as_str());
                let lowered = lower_chars(&pv);
                let hub_pat = chars_of("huggingface");
                let cache_pat = chars_of(".cache");
                let in_cache = contains_chars(&lowered, &hub_pat) || contains_chars(
                    &lowered,
                    &cache_pat,
                );
                PathClass::WeightFile { stem, in_cache }
            } else {
                PathClass::OtherFile
            }
        },
        _ => PathClass::NotAFile,
    }
}

/// The base URLs under which the two daemons are probed.
#[derive(Clone, Debug)]
pub struct LoaderEndpoints {
    pub ollama_base: String,
    pub lm_studio_base: String,
}

impl LoaderEndpoints {
    /// The daemons' fixed local ports.
    pub fn local() -> (r: Self)
        ensures
            r.ollama_base@ == "http://localhost:11434"@,
            r.lm_studio_base@ == "http://localhost:1234"@,
    {
        LoaderEndpoints {
            ollama_base: String::from_str("http://localhost:11434"),
            lm_studio_base: String::from_str("http://localhost:1234"),
        }
    }
}

/// The fixed echo reply used when no provider is bound.
pub open spec fn spec_echo_reply(prompt: Seq<char>) -> Seq<char> {
    "[Model response to: "@ + prompt + "]"@
}

/// Loads and runs one model through the provider bound at construction.
#[derive(Clone, Debug)]
pub struct ModelLoader {
    pub path: String,
    pub loaded: bool,
    pub placeholder: bool,
    pub ollama_client: Option<OllamaClient>,
    pub python_ollama_client: Option<PythonOllamaClient>,
    pub lm_studio_client: Option<LMStudioClient>,
    pub huggingface_client: Option<HuggingFaceClient>,
    pub model_name: String,
}

/// Assembles the loader a classification and the probe answers dictate.
/// This is the whole binding decision, exactly: a daemon URI binds the
/// daemon's server when its probe answered, else the scripting fallback when
/// that probe answered, else nothing — the server is always preferred; a
/// real weight file binds the chat daemon when its probe answered, else,
/// only under a cache location, the tensor bridge when its probe answered;
/// a placeholder or any other identifier binds nothing and keeps the
/// identifier as the display name. A probe that the decision never consults
/// is passed `false`.
pub fn assemble_loader(
    path: &String,
    class: PathClass,
    endpoints: &LoaderEndpoints,
    server_up: bool,
    script_up: bool,
    chat_up: bool,
    bridge_up: bool,
) -> (r: ModelLoader)
    ensures
        r.wf(),
        !r.loaded,
        r.path == *path,
        match class {
            PathClass::DaemonUri { raw } => {
                &&& r.model_name@ == "ollama:"@ + raw@
                &&& !r.placeholder
                &&& (server_up ==> r.spec_binding() == Some(ProviderKind::OllamaServer)
                    && (r.ollama_client matches Some(c) && c.model_name@
                    == crate::ollama::spec_strip_ollama_tag(raw@) && c.base_url
                    == endpoints.ollama_base))
                &&& (!server_up && script_up ==> r.spec_binding() == Some(
                    ProviderKind::PythonOllama,
                ) && (r.python_ollama_client matches Some(c) && c.model_name@
                    == crate::ollama::spec_strip_ollama_tag(raw@)))
                &&& (!server_up && !script_up ==> r.spec_binding() is None)
            },
            PathClass::PlaceholderFile => {
                &&& r.placeholder
                &&& r.spec_binding() is None
                &&& r.model_name == *path
            },
            PathClass::WeightFile { stem, in_cache } => {
                &&& r.model_name == stem
                &&& !r.placeholder
                &&& (chat_up ==> r.spec_binding() == Some(ProviderKind::LmStudio) && (
                r.lm_studio_client matches Some(c) && c.model_path == *path && c.base_url
                    == endpoints.lm_studio_base))
                &&& (!chat_up && in_cache && bridge_up ==> r.spec_binding() == Some(
                    ProviderKind::HuggingFaceBridge,
                ) && (r.huggingface_client matches Some(c) && c.model_path == *path))
                &&& (!chat_up && !(in_cache && bridge_up) ==> r.spec_binding() is None)
            },
            PathClass::OtherFile => !r.placeholder && r.spec_binding() is None && r.model_name
                == *path,
            PathClass::NotAFile => !r.placeholder && r.spec_binding() is None && r.model_name
                == *path,
        },
{
    match class {
        PathClass::DaemonUri { raw } => {
            let model_name = String::from_str("ollama:").concat(raw.as_str());
            let (ollama_client, python_ollama_client) = if server_up {
                (
                    Some(OllamaClient::with_base_url(raw, endpoints.ollama_base.clone())),
                    None,
                )
            } else if script_up {
                (None, Some(PythonOllamaClient::new(raw)))
            } else {
                (None, None)
            };
            ModelLoader {
                path: path.clone(),
                loaded: false,
                placeholder: false,
                ollama_client,
                python_ollama_client,
                lm_studio_client: None,
                huggingface_client: None,
                model_name,
            }
        },
        PathClass::PlaceholderFile => ModelLoader {
            path: path.clone(),
            loaded: false,
            placeholder: true,
            ollama_client: None,
            python_ollama_client: None,
            lm_studio_client: None,
            huggingface_client: None,
            model_name: path.clone(),
        },
        PathClass::WeightFile { stem, in_cache } => {
            let (lm_studio_client, huggingface_client) = if chat_up {
                (
                    Some(
                        LMStudioClient::with_base_url(
                            path.clone(),
                            endpoints.lm_studio_base.clone(),
                        ),
                    ),
                    None,
                )
            } else if in_cache && bridge_up {
                (None, Some(HuggingFaceClient::new(path.clone())))
            } else {
                (None, None)
            };
            ModelLoader {
                path: path.clone(),
                loaded: false,
                placeholder: false,
                ollama_client: None,
                python_ollama_client: None,
                lm_studio_client,
                huggingface_client,
                model_name: stem,
            }
        },
        PathClass::OtherFile => ModelLoader {
            path: path.clone(),
            loaded: false,
            placeholder: false,
            ollama_client: None,
            python_ollama_client: None,
            lm_studio_client: None,
            huggingface_client: None,
            model_name: path.clone(),
        },
        PathClass::NotAFile => ModelLoader {
            path: path.clone(),
            loaded: false,
            placeholder: false,
            ollama_client: None,
            python_ollama_client: None,
            lm_studio_client: None,
            huggingface_client: None,
            model_name: path.clone(),
        },
    }
}

impl ModelLoader {
    /// At most one provider client is populated.
    pub open spec fn wf(self) -> bool {
        &&& (self.ollama_client is Some ==> self.python_ollama_client is None
            && self.lm_studio_client is None && self.huggingface_client is None)
        &&& (self.python_ollama_client is Some ==> self.lm_studio_client is None
            && self.huggingface_client is None)
        &&& (self.lm_studio_client is Some ==> self.huggingface_client is None)
    }

    /// Which provider is bound, if any.
    pub open spec fn spec_binding(self) -> Option<ProviderKind> {
        if self.ollama_client is Some {
            Some(ProviderKind::OllamaServer)
        } else if self.python_ollama_client is Some {
            Some(ProviderKind::PythonOllama)
        } else if self.lm_studio_client is Some {
            Some(ProviderKind::LmStudio)
        } else if self.huggingface_client is Some {
            Some(ProviderKind::HuggingFaceBridge)
        } else {
            None
        }
    }

    /// Everything but the `loaded` flag is the same in `a` and `b`.
    pub open spec fn same_binding(a: ModelLoader, b: ModelLoader) -> bool {
        &&& a.path == b.path
        &&& a.placeholder == b.placeholder
        &&& a.ollama_client == b.ollama_client
        &&& a.python_ollama_client == b.python_ollama_client
        &&& a.lm_studio_client == b.lm_studio_client
        &&& a.huggingface_client == b.huggingface_client
        &&& a.model_name == b.model_name
    }

    /// Constructs a loader for `path`, probing the daemons at the given base
    /// URLs. Construction never fails: probing only decides which provider
    /// is bound. A daemon URI binds the daemon's server or, failing that,
    /// its scripting fallback; an existing real weight file binds the chat
    /// daemon or, when the path lies under a cache location, the tensor
    /// bridge; a placeholder binds nothing and is remembered as such.
    pub fn new_at(path: &String, endpoints: &LoaderEndpoints) -> (r: ModelLoader)
        ensures
            r.wf(),
            !r.loaded,
            r.path == *path,
            is_daemon_uri(path@) ==> {
                &&& r.model_name@ == "ollama:"@ + spec_uri_name(path@)
                &&& !r.placeholder
                &&& (r.spec_binding() is None || r.spec_binding() == Some(
                    ProviderKind::OllamaServer,
                ) || r.spec_binding() == Some(ProviderKind::PythonOllama))
            },
            !is_daemon_uri(path@) ==> (r.spec_binding() is None || r.spec_binding() == Some(
                ProviderKind::LmStudio,
            ) || r.spec_binding() == Some(ProviderKind::HuggingFaceBridge)),
            r.placeholder ==> r.spec_binding() is None && r.model_name == *path,
            r.spec_binding() == Some(ProviderKind::HuggingFaceBridge) ==> spec_in_cache(path@),
            (r.spec_binding() == Some(ProviderKind::LmStudio) || r.spec_binding() == Some(
                ProviderKind::HuggingFaceBridge,
            )) ==> r.model_name@ == spec_stem(spec_file_name(path@)),
            r.ollama_client matches Some(c) ==> c.model_name@
                == crate::ollama::spec_strip_ollama_tag(spec_uri_name(path@)) && c.base_url
                == endpoints.ollama_base,
            r.python_ollama_client matches Some(c) ==> c.model_name@
                == crate::ollama::spec_strip_ollama_tag(spec_uri_name(path@)),
            r.lm_studio_client matches Some(c) ==> c.model_path == *path && c.base_url
                == endpoints.lm_studio_base,
            r.huggingface_client matches Some(c) ==> c.model_path == *path,
    {
        let node = fs_node_kind(path);
        let contents: Option<String> = match node {
            FsNodeKind::File => {
                if starts_with(path.as_str(), "ollama://") {
                    None
                } else {
                    fs_read_to_string(path)
                }
            },
            _ => None,
        };
        let class = classify_path(path, node, &contents);
        // The probes the decision needs, in its own order; one that the
        // decision would not consult stays false.
        let mut server_up = false;
        let mut script_up = false;
        let mut chat_up = false;
        let mut bridge_up = false;
        match &class {
            PathClass::DaemonUri { raw } => {
                let client = OllamaClient::with_base_url(
                    raw.clone(),
                    endpoints.ollama_base.clone(),
                );
                server_up = client.check_available();
                if !server_up {
                    let py = PythonOllamaClient::new(raw.clone());
                    script_up = py.check_available();
                }
            },
            PathClass::WeightFile { in_cache, .. } => {
                let lm = LMStudioClient::with_base_url(
                    path.clone(),
                    endpoints.lm_studio_base.clone(),
                );
                chat_up = lm.check_available();
                if !chat_up && *in_cache {
                    let hf = HuggingFaceClient::new(path.clone());
                    bridge_up = hf.check_available();
                }
            },
            _ => {},
        }
        assemble_loader(path, class, endpoints, server_up, script_up, chat_up, bridge_up)
    }

    /// Constructs a loader for `path` against the daemons' fixed local
    /// ports.
    pub fn new(path: &String) -> (r: ModelLoader)
        ensures
            r.wf(),
            !r.loaded,
            r.path == *path,
            r.placeholder ==> r.spec_binding() is None && r.model_name == *path,
            is_daemon_uri(path@) ==> !r.placeholder && r.model_name@ == "ollama:"@ + spec_uri_name(
                path@,
            ),
    {
        let endpoints = LoaderEndpoints::local();
        Self::new_at(path, &endpoints)
    }

    /// Applies the bound backend's availability answer: an answering backend
    /// marks the model loaded; a silent one is that backend's unavailable
    /// error, and the flag stays as it was. This is the whole gating
    /// decision of `load` for a bound provider, exactly.
    pub fn apply_probe(&mut self, backend: ProviderKind, up: bool) -> (r: Result<(), ModelError>)
        requires
            old(self).wf(),
            old(self).spec_binding() == Some(backend),
        ensures
            final(self).wf(),
            Self::same_binding(*final(self), *old(self)),
            up ==> r is Ok && final(self).loaded,
            !up ==> r == Err::<(), ModelError>((ModelError::BackendUnavailable { backend }))
                && final(self).loaded == old(self).loaded,
    {
        if up {
            self.loaded = true;
            Ok(())
        } else {
            Err(ModelError::BackendUnavailable { backend })
        }
    }

    /// Verifies that the bound provider is reachable and marks the model
    /// loaded: the bound backend's probe answer decides, through
    /// `apply_probe`. With nothing bound, the placeholder sentinel is
    /// checked again on disk — a placeholder, remembered or fresh, is the
    /// distinct placeholder error, never a generic failure — and any other
    /// identifier loads trivially.
    pub fn load(&mut self) -> (r: Result<(), ModelError>)
        requires
            old(self).wf(),
        ensures
            final(self).wf(),
            Self::same_binding(*final(self), *old(self)),
            r is Ok ==> final(self).loaded,
            r is Err ==> final(self).loaded == old(self).loaded,
            old(self).spec_binding() is None && old(self).placeholder ==> r == Err::<
                (),
                ModelError,
            >((ModelError::PlaceholderModel { path: old(self).path })),
            old(self).spec_binding() is None ==> (r is Ok || r == Err::<(), ModelError>(
                (ModelError::PlaceholderModel { path: old(self).path }),
            )),
            r matches Err(e) ==> match e {
                ModelError::PlaceholderModel { .. } => old(self).spec_binding() is None,
                ModelError::BackendUnavailable { backend } => old(self).spec_binding() == Some(
                    backend,
                ),
                _ => false,
            },
    {
        let probed: Option<(ProviderKind, bool)> = match &self.ollama_client {
            Some(client) => Some((ProviderKind::OllamaServer, client.check_available())),
            None => match &self.python_ollama_client {
                Some(client) => Some((ProviderKind::PythonOllama, client.check_available())),
                None => match &self.lm_studio_client {
                    Some(client) => Some((ProviderKind::LmStudio, client.check_available())),
                    None => match &self.huggingface_client {
                        Some(client) => Some(
                            (ProviderKind::HuggingFaceBridge, client.check_available()),
                        ),
                        None => None,
                    },
                },
            },
        };
        match probed {
            Some((backend, up)) => self.apply_probe(backend, up),
            None => {
                // Nothing is bound: check the sentinel again on disk, then
                // the flag remembered at construction.
                let fresh = match fs_node_kind(&self.path) {
                    FsNodeKind::File => match fs_read_to_string(&self.path) {
                        Some(c) => is_placeholder_content(c.as_str()),
                        None => false,
                    },
                    _ => false,
                };
                if self.placeholder || fresh {
                    return Err(ModelError::PlaceholderModel { path: self.path.clone() });
                }
                self.loaded = true;
                Ok(())
            },
        }
    }

    /// Runs one generation request through the bound provider, in the same
    /// priority order as construction. Before a successful `load` this is
    /// the not-loaded error. With a provider bound, the result is that
    /// provider's: every error names it (a chat-daemon failure is wrapped
    /// with remediation context first), and a success is tied to some reply
    /// or run of that provider. With nothing bound it is the fixed echo
    /// reply, the system's explicit no-backend behavior.
    pub fn infer(&self, prompt: &String) -> (r: Result<String, ModelError>)
        requires
            self.wf(),
        ensures
            !self.loaded ==> r == Err::<String, ModelError>(ModelError::NotLoaded),
            self.loaded && self.spec_binding() is None ==> (r matches Ok(t) && t@
                == spec_echo_reply(prompt@)),
            self.loaded ==> match self.spec_binding() {
                Some(b) => (r matches Err(e) ==> crate::errors::spec_error_backend(e) == Some(b)),
                None => true,
            },
            self.loaded && self.spec_binding() == Some(ProviderKind::OllamaServer) ==> (
            r matches Ok(t) ==> crate::ollama::some_generate_reply(t@)),
            self.loaded && self.spec_binding() == Some(ProviderKind::LmStudio) ==> (r matches Ok(t)
                ==> crate::lm_studio::some_chat_reply(t@)),
            self.loaded && (self.spec_binding() == Some(ProviderKind::PythonOllama)
                || self.spec_binding() == Some(ProviderKind::HuggingFaceBridge)) ==> (r matches Ok(
                t,
            ) ==> exists|o: Seq<char>| t@ == crate::strings::spec_trim(o)),
    {
        if !self.loaded {
            return Err(ModelError::NotLoaded);
        }
        match &self.ollama_client {
            Some(client) => {
                return client.generate(prompt);
            },
            None => {},
        }
        match &self.python_ollama_client {
            Some(client) => {
                return client.generate(prompt);
            },
            None => {},
        }
        match &self.lm_studio_client {
            Some(client) => {
                match client.generate(prompt) {
                    Ok(t) => {
                        return Ok(t);
                    },
                    Err(e) => {
                        // The chat daemon often answers while no model is
                        // loaded in it; wrap the failure with remediation
                        // context, as callers expect.
                        let detail = e.message();
                        return Err(
                            ModelError::InferenceFailed {
                                backend: ProviderKind::LmStudio,
                                detail,
                            },
                        );
                    },
                }
            },
            None => {},
        }
        match &self.huggingface_client {
            Some(client) => {
                return client.generate(prompt);
            },
            None => {},
        }
        let mut out: Vec<char> = Vec::new();
        push_str_chars("[Model response to: ", &mut out);
        push_str_chars(prompt.as_str(), &mut out);
        push_str_chars("]", &mut out);
        proof {
            assert(out@ =~= spec_echo_reply(prompt@));
        }
        Ok(string_of(&out))
    }

    /// An equal copy of the loader: the snapshot handed to callers.
    pub fn duplicate(&self) -> (r: Self)
        ensures
            r == *self,
    {
        ModelLoader {
            path: self.path.clone(),
            loaded: self.loaded,
            placeholder: self.placeholder,
            ollama_client: match &self.ollama_client {
                Some(c) => Some(c.duplicate()),
                None => None,
            },
            python_ollama_client: match &self.python_ollama_client {
                Some(c) => Some(c.duplicate()),
                None => None,
            },
            lm_studio_client: match &self.lm_studio_client {
                Some(c) => Some(c.duplicate()),
                None => None,
            },
            huggingface_client: match &self.huggingface_client {
                Some(c) => Some(c.duplicate()),
                None => None,
            },
            model_name: self.model_name.clone(),
        }
    }

    /// Whether `load` has succeeded.
    pub fn is_loaded(&self) -> (r: bool)
        ensures
            r == self.loaded,
    {
        self.loaded
    }
}

} // verus!
