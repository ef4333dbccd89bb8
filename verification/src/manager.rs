//! The model manager: the persisted configuration, the copying of a detected
//! model into it, and the bridge from a configured name to a running loader.

use vstd::prelude::*;
use vstd::string::*;
use crate::strings::{is_prefix, contains_seq, starts_with, strip_prefix_str, chars_of};
use crate::pathstr::{last_index, last_index_exec, lemma_last_index_bounds, spec_stem, spec_join, stem_of, join_path};
use crate::paths::{spec_models_dir, get_models_dir, get_model_config_path, get_config_dir};
use crate::detector::DetectedModel;
use crate::fsio::{FsNodeKind, FsEntry, fs_node_kind, fs_read_to_string, fs_list_dir, fs_write_string, fs_create_dir_all};
use crate::loader::ModelLoader;
use crate::errors::ModelError;
use crate::configjson::{parse_config, render_config};

verus! {

/// The configured size class of the selected model.
#[derive(Clone, Copy, PartialEq, Eq, Structural, Debug)]
pub enum ModelSize {
    Small,
    Medium,
    Large,
}

/// The persisted model selection. `local_path` is recomputed for the running
/// platform whenever the file is read; it is never trusted verbatim.
#[derive(Clone, Debug)]
pub struct ModelConfig {
    pub name: String,
    pub size: ModelSize,
    pub url: Option<String>,
    pub local_path: String,
}

impl ModelConfig {
    /// An equal copy of the configuration.
    pub fn duplicate(&self) -> (r: Self)
        ensures
            r == *self,
    {
        ModelConfig {
            name: self.name.clone(),
            size: self.size,
            url: match &self.url {
                Some(u) => Some(u.clone()),
                None => None,
            },
            local_path: self.local_path.clone(),
        }
    }
}

/// The size class assigned to a detected model from its byte count: below
/// 2 GB small, below 8 GB medium, otherwise large; an unknown count is
/// medium.
pub open spec fn spec_size_class(bytes: Option<u64>) -> ModelSize {
    match bytes {
        Some(b) => if b < 2000000000 {
            ModelSize::Small
        } else if b < 8000000000 {
            ModelSize::Medium
        } else {
            ModelSize::Large
        },
        None => ModelSize::Medium,
    }
}

/// The size class for a byte count, executable form.
pub fn size_class_for(bytes: Option<u64>) -> (r: ModelSize)
    ensures
        r == spec_size_class(bytes),
{
    match bytes {
        Some(b) => {
            if b < 2000000000 {
                ModelSize::Small
            } else if b < 8000000000 {
                ModelSize::Medium
            } else {
                ModelSize::Large
            }
        },
        None => ModelSize::Medium,
    }
}

/// The directory part of a path: up to its last `/`, a lone root slash kept;
/// the models directory when the path has no separator at all.
pub open spec fn spec_parent_dir(p: Seq<char>) -> Seq<char> {
    let i = last_index(p, '/');
    if i > 0 {
        p.subrange(0, i)
    } else if i == 0 {
        seq!['/']
    } else {
        spec_models_dir()
    }
}

/// The directory part of a path, executable form.
pub fn parent_dir(p: &str) -> (r: String)
    ensures
        r@ == spec_parent_dir(p@),
{
    let v = chars_of(p);
    match last_index_exec(&v, '/') {
        Some(i) if i > 0 => {
            proof {
                lemma_last_index_bounds(p@, '/');
            }
            String::from_str(p.substring_char(0, i))
        },
        Some(_) => {
            let root = String::from_str("/");
            proof {
                reveal_strlit("/");
                assert(root@ =~= seq!['/']);
            }
            root
        },
        None => get_models_dir(),
    }
}

/// Copies the relevant fields of a detected model into a configuration, as
/// the selection flow persists it: the display name, a size class bucketed
/// from the byte count, no download URL, and the model file's directory.
pub fn config_for_selection(m: &DetectedModel) -> (r: ModelConfig)
    ensures
        r.name == m.name,
        r.size == spec_size_class(m.size),
        r.url is None,
        r.local_path@ == spec_parent_dir(m.path@),
{
    ModelConfig {
        name: m.name.clone(),
        size: size_class_for(m.size),
        url: None,
        local_path: parent_dir(m.path.as_str()),
    }
}

/// The three file names a placeholder artifact may carry.
pub fn placeholder_names() -> (r: Vec<String>)
    ensures
        r@.len() == 3,
        r@[0]@ == "digios-default"@,
        r@[1]@ == "digios-default-small"@,
        r@[2]@ == "digios-default-large"@,
{
    let mut v: Vec<String> = Vec::new();
    v.push(String::from_str("digios-default"));
    v.push(String::from_str("digios-default-small"));
    v.push(String::from_str("digios-default-large"));
    v
}

/// Whether entry `e` answers to a searched model name: a file whose stem is
/// the name, or whose full path mentions it.
pub open spec fn entry_matches(dir: Seq<char>, e: FsEntry, needle: Seq<char>) -> bool {
    e.is_file && (spec_stem(e.name@) == needle || contains_seq(spec_join(dir, e.name@), needle))
}

/// Searches a directory listing for a file answering to `needle`: the first
/// match's full path, or `None` when no entry matches.
pub fn find_model_file(dir: &str, entries: &Vec<FsEntry>, needle: &str) -> (r: Option<String>)
    ensures
        match r {
            Some(p) => exists|k: int|
                0 <= k < entries@.len() && entry_matches(dir@, #[trigger] entries@[k], needle@)
                    && p@ == spec_join(dir@, entries@[k].name@) && (forall|j: int|
                    0 <= j < k ==> !entry_matches(dir@, #[trigger] entries@[j], needle@)),
            None => forall|k: int|
                0 <= k < entries@.len() ==> !entry_matches(dir@, #[trigger] entries@[k], needle@),
        },
{
    let mut i: usize = 0;
    while i < entries.len()
        invariant
            i <= entries@.len(),
            forall|k: int|
                0 <= k < i ==> !entry_matches(dir@, #[trigger] entries@[k], needle@),
        decreases entries.len() - i,
    {
        let e = &entries[i];
        if e.is_file {
            let stem = stem_of(e.name.as_str());
            let full = join_path(dir, e.name.as_str());
            if crate::pathstr::eq_str(stem.as_str(), needle) || crate::strings::contains_sub(
                full.as_str(),
                needle,
            ) {
                return Some(full);
            }
        }
        i = i + 1;
    }
    None
}

/// The names of the entries of a listing, in order.
pub fn entry_names(entries: &Vec<FsEntry>) -> (r: Vec<String>)
    ensures
        r@.len() == entries@.len(),
        forall|k: int| 0 <= k < r@.len() ==> (#[trigger] r@[k])@ == entries@[k].name@,
{
    let mut out: Vec<String> = Vec::new();
    let mut i: usize = 0;
    while i < entries.len()
        invariant
            i <= entries@.len(),
            out@.len() == i,
            forall|k: int| 0 <= k < i ==> (#[trigger] out@[k])@ == entries@[k].name@,
        decreases entries.len() - i,
    {
        out.push(entries[i].name.clone());
        i = i + 1;
    }
    out
}

/// Persists a selected detected model: its configuration is rendered and
/// written to the configuration file.
pub fn save_model_selection(m: &DetectedModel) -> Result<(), ModelError> {
    let config = config_for_selection(m);
    let dir = get_config_dir();
    if !fs_create_dir_all(&dir) {
        return Err(
            ModelError::FileSystem {
                detail: String::from_str("could not create the configuration directory"),
            },
        );
    }
    let text = render_config(&config);
    let path = get_model_config_path();
    if !fs_write_string(&path, &text) {
        return Err(
            ModelError::FileSystem {
                detail: String::from_str("could not write the configuration file"),
            },
        );
    }
    Ok(())
}

/// Whether a filesystem answer says something is there.
pub fn node_present(k: FsNodeKind) -> (r: bool)
    ensures
        r == !(k is Missing),
{
    match k {
        FsNodeKind::Missing => false,
        _ => true,
    }
}

/// The existence decision: the configured name's file is there, or any of
/// the placeholder candidates is.
pub fn exists_decision(primary: bool, placeholders: &Vec<bool>) -> (r: bool)
    ensures
        r == (primary || exists|k: int| 0 <= k < placeholders@.len() && placeholders@[k]),
{
    if primary {
        return true;
    }
    let mut i: usize = 0;
    while i < placeholders.len()
        invariant
            i <= placeholders@.len(),
            forall|k: int| 0 <= k < i ==> !placeholders@[k],
        decreases placeholders.len() - i,
    {
        if placeholders[i] {
            return true;
        }
        i = i + 1;
    }
    false
}

/// The default selection used when nothing is persisted.
pub fn default_config() -> (r: ModelConfig)
    ensures
        r.name@ == "digios-default"@,
        r.size == ModelSize::Medium,
        r.url is None,
        r.local_path@ == spec_models_dir(),
{
    ModelConfig {
        name: String::from_str("digios-default"),
        size: ModelSize::Medium,
        url: None,
        local_path: get_models_dir(),
    }
}

/// Bridges the persisted configuration to a running loader.
pub struct ModelManager {
    pub config: ModelConfig,
    /// The user's home directory, when known; the chat daemon's model
    /// directory is searched under it.
    pub home: Option<String>,
    pub loader: Option<ModelLoader>,
}

impl ModelManager {
    /// Reads the persisted configuration, or falls back to the default
    /// selection when none is persisted. The local path is always recomputed
    /// for the running platform, never taken from the file.
    pub fn new() -> (r: Result<ModelManager, ModelError>)
        ensures
            r matches Ok(m) ==> {
                &&& m.config.local_path@ == spec_models_dir()
                &&& m.loader is None
                &&& m.home is None
            },
            r matches Err(e) ==> (e is InvalidConfig || e is FileSystem),
    {
        let config_path = get_model_config_path();
        let config: ModelConfig = match fs_node_kind(&config_path) {
            FsNodeKind::File => {
                let text = match fs_read_to_string(&config_path) {
                    Some(t) => t,
                    None => {
                        return Err(
                            ModelError::InvalidConfig {
                                detail: String::from_str(
                                    "the configuration file could not be read",
                                ),
                            },
                        );
                    },
                };
                match parse_config(text.as_str()) {
                    Some(mut c) => {
                        c.local_path = get_models_dir();
                        c
                    },
                    None => {
                        let detail = String::from_str(
                            "the configuration file could not be parsed (content: ",
                        ).concat(text.as_str()).concat(")");
                        return Err(ModelError::InvalidConfig { detail });
                    },
                }
            },
            _ => default_config(),
        };
        if !fs_create_dir_all(&config.local_path) {
            return Err(
                ModelError::FileSystem {
                    detail: String::from_str("could not create the models directory"),
                },
            );
        }
        Ok(ModelManager { config, home: None, loader: None })
    }

    /// A manager over the given configuration, nothing loaded yet.
    pub fn from_config(config: ModelConfig) -> (r: ModelManager)
        ensures
            r.config == config,
            r.home is None,
            r.loader is None,
    {
        ModelManager { config, home: None, loader: None }
    }

    /// Whether a model file seems present: a file named exactly as the
    /// configuration under its local path, or any of the three placeholder
    /// names. A stale placeholder thus satisfies this check; resolution
    /// keeps that behavior deliberately. The decision over the four
    /// existence answers is `exists_decision`, exactly.
    pub fn model_exists(&self) -> bool {
        let primary = join_path(self.config.local_path.as_str(), self.config.name.as_str());
        let primary_there = node_present(fs_node_kind(&primary));
        let names = placeholder_names();
        let mut present: Vec<bool> = Vec::new();
        let mut i: usize = 0;
        while i < names.len()
            decreases names.len() - i,
        {
            let cand = join_path(self.config.local_path.as_str(), names[i].as_str());
            present.push(node_present(fs_node_kind(&cand)));
            i = i + 1;
        }
        exists_decision(primary_there, &present)
    }

    /// The fixed download URL for each size class, used when the
    /// configuration names none.
    pub fn get_default_url(&self) -> (r: String)
        ensures
            r@ == match self.config.size {
                ModelSize::Small => "https://example.com/models/small.bin"@,
                ModelSize::Medium => "https://example.com/models/medium.bin"@,
                ModelSize::Large => "https://example.com/models/large.bin"@,
            },
    {
        match self.config.size {
            ModelSize::Small => String::from_str("https://example.com/models/small.bin"),
            ModelSize::Medium => String::from_str("https://example.com/models/medium.bin"),
            ModelSize::Large => String::from_str("https://example.com/models/large.bin"),
        }
    }

    /// Downloads the configured model into the local path, from the
    /// configured URL or the size class's default.
    pub fn download_model(&self) -> Result<(), ModelError> {
        let url = match &self.config.url {
            Some(u) => u.clone(),
            None => self.get_default_url(),
        };
        let downloader = crate::downloader::ModelDownloader::new();
        downloader.download(url.as_str(), &self.config.local_path)
    }

    /// Resolves the configured name to a concrete identifier — the daemon
    /// URI form, a file found in the chat daemon's directory, the local path
    /// itself, or a file under it (placeholder names included) — then
    /// constructs a loader there and loads it. The name resolution rules are
    /// fixed; which file exists is the filesystem's answer of the moment.
    pub fn load_model(&mut self) -> (r: Result<(), ModelError>)
        ensures
            final(self).config == old(self).config,
            final(self).home == old(self).home,
            r is Ok ==> (final(self).loader matches Some(l) && l.loaded && l.wf()),
            r is Err ==> final(self).loader == old(self).loader,
            is_prefix(old(self).config.name@, "ollama:"@) && r is Ok ==> match final(self).loader {
                Some(l) => l.path@ == "ollama://"@ + old(self).config.name@.subrange(
                    7,
                    old(self).config.name@.len() as int,
                ),
                None => false,
            },
            !is_prefix(old(self).config.name@, "ollama:"@) && !is_prefix(
                old(self).config.name@,
                "lmstudio:"@,
            ) && is_prefix(old(self).config.name@, "huggingface:"@) && r is Ok ==> match final(self).loader {
                Some(l) => l.path == old(self).config.local_path,
                None => false,
            },
            !is_prefix(old(self).config.name@, "ollama:"@) && !is_prefix(
                old(self).config.name@,
                "lmstudio:"@,
            ) && !is_prefix(old(self).config.name@, "huggingface:"@) && r is Ok ==> match final(self).loader {
                Some(l) => {
                    ||| l.path@ == spec_join(old(self).config.local_path@, old(self).config.name@)
                    ||| l.path@ == spec_join(old(self).config.local_path@, "digios-default"@)
                    ||| l.path@ == spec_join(
                        old(self).config.local_path@,
                        "digios-default-small"@,
                    )
                    ||| l.path@ == spec_join(
                        old(self).config.local_path@,
                        "digios-default-large"@,
                    )
                },
                None => false,
            },
            r matches Err(e) ==> match e {
                ModelError::ModelFileNotFound { searched, .. } => {
                    &&& !is_prefix(old(self).config.name@, "ollama:"@)
                    &&& !is_prefix(old(self).config.name@, "lmstudio:"@)
                    &&& !is_prefix(old(self).config.name@, "huggingface:"@)
                    &&& searched@ == spec_join(
                        old(self).config.local_path@,
                        old(self).config.name@,
                    )
                },
                ModelError::PlaceholderModel { .. } => true,
                ModelError::BackendUnavailable { .. } => true,
                _ => false,
            },
    {
        let model_path: String = if starts_with(self.config.name.as_str(), "ollama:") {
            proof {
                reveal_strlit("ollama:");
            }
            let rest = strip_prefix_str(self.config.name.as_str(), "ollama:");
            String::from_str("ollama://").concat(rest.as_str())
        } else if starts_with(self.config.name.as_str(), "lmstudio:") {
            let rest = strip_prefix_str(self.config.name.as_str(), "lmstudio:");
            let lm_dir = match &self.home {
                Some(h) => h.clone().concat("/.local/share/lm-studio/models"),
                None => String::from_str(".local/share/lm-studio/models"),
            };
            let found = match fs_list_dir(&lm_dir) {
                Some(entries) => find_model_file(lm_dir.as_str(), &entries, rest.as_str()),
                None => None,
            };
            match found {
                Some(p) => p,
                None => join_path(self.config.local_path.as_str(), rest.as_str()),
            }
        } else if starts_with(self.config.name.as_str(), "huggingface:") {
            self.config.local_path.clone()
        } else {
            let primary = join_path(self.config.local_path.as_str(), self.config.name.as_str());
            let primary_there = match fs_node_kind(&primary) {
                FsNodeKind::Missing => false,
                _ => true,
            };
            if primary_there {
                primary
            } else {
                let names = placeholder_names();
                let mut found: Option<String> = None;
                let mut i: usize = 0;
                while i < names.len() && found.is_none()
                    invariant
                        names@.len() == 3,
                        names@[0]@ == "digios-default"@,
                        names@[1]@ == "digios-default-small"@,
                        names@[2]@ == "digios-default-large"@,
                        i <= names@.len(),
                        match found {
                            Some(pp) => {
                                ||| pp@ == spec_join(self.config.local_path@, "digios-default"@)
                                ||| pp@ == spec_join(
                                    self.config.local_path@,
                                    "digios-default-small"@,
                                )
                                ||| pp@ == spec_join(
                                    self.config.local_path@,
                                    "digios-default-large"@,
                                )
                            },
                            None => true,
                        },
                        self.config == old(self).config,
                        self.home == old(self).home,
                        self.loader == old(self).loader,
                    decreases names.len() - i,
                {
                    let cand = join_path(self.config.local_path.as_str(), names[i].as_str());
                    match fs_node_kind(&cand) {
                        FsNodeKind::Missing => {},
                        _ => {
                            found = Some(cand);
                        },
                    }
                    i = i + 1;
                }
                match found {
                    Some(p) => p,
                    None => {
                        let listing = match fs_list_dir(&self.config.local_path) {
                            Some(entries) => entry_names(&entries),
                            None => Vec::new(),
                        };
                        return Err(
                            ModelError::ModelFileNotFound { searched: primary, listing },
                        );
                    },
                }
            }
        };
        let mut loader = ModelLoader::new(&model_path);
        match loader.load() {
            Ok(()) => {
                self.loader = Some(loader);
                Ok(())
            },
            Err(e) => Err(e),
        }
    }

    /// A snapshot of the loaded model, unaffected by a later reload.
    pub fn get_model(&self) -> (r: Option<ModelLoader>)
        ensures
            r == self.loader,
    {
        match &self.loader {
            Some(l) => Some(l.duplicate()),
            None => None,
        }
    }

    /// The current configuration.
    pub fn get_config(&self) -> (r: &ModelConfig)
        ensures
            *r == self.config,
    {
        &self.config
    }
}

} // verus!
