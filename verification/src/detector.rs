//! The model detector. It enumerates models already present on the host:
//! the daemon's own listing command, the LM Studio model directory, the
//! Hugging Face hub cache, and a fixed set of local directories. Every probe
//! absorbs its own I/O failures, so a scan always returns the models the
//! remaining probes could see. The classification of listings into inventory
//! records is pure and fully specified; only the probes themselves are
//! trusted.

use vstd::prelude::*;
use vstd::string::*;
use crate::strings::{
    chars_of,
    string_of,
    subvec,
    is_prefix,
    first_index_from,
    first_index_from_exec,
    lemma_first_index_from_bounds,
    first_blank_from,
    first_blank_from_exec,
    first_nonblank_from,
    first_nonblank_from_exec,
    lemma_first_nonblank_from_bounds,
};
use crate::pathstr::{spec_extension, spec_stem, spec_join, extension_of, stem_of, weight_ext, is_weight_ext, join_path};
use crate::fsio::{FsEntry, fs_list_dir};
use crate::procio::run_process;
use crate::sizefmt::{spec_format_size_opt, format_size_opt_string};

verus! {

/// One model found on the host, wherever it came from.
#[derive(Clone, Debug)]
pub struct DetectedModel {
    pub name: String,
    pub provider: ModelProvider,
    pub path: String,
    pub size: Option<u64>,
    pub description: String,
}

/// Where a detected model lives.
#[derive(Clone, Debug)]
pub enum ModelProvider {
    Ollama,
    LMStudio,
    HuggingFace,
    LocalFile,
    OpenAI,
    Anthropic,
    Other(String),
}

impl ModelProvider {
    /// An equal copy of the provider tag.
    pub fn duplicate(&self) -> (r: Self)
        ensures
            r == *self,
    {
        match self {
            ModelProvider::Ollama => ModelProvider::Ollama,
            ModelProvider::LMStudio => ModelProvider::LMStudio,
            ModelProvider::HuggingFace => ModelProvider::HuggingFace,
            ModelProvider::LocalFile => ModelProvider::LocalFile,
            ModelProvider::OpenAI => ModelProvider::OpenAI,
            ModelProvider::Anthropic => ModelProvider::Anthropic,
            ModelProvider::Other(s) => ModelProvider::Other(s.clone()),
        }
    }
}

/// Scans the host for installed models.
pub struct ModelDetector {
    /// The user's home directory, when known; the probes that look under it
    /// are skipped otherwise.
    pub home: Option<String>,
}

/// `l` without a trailing carriage return.
pub open spec fn strip_cr(l: Seq<char>) -> Seq<char> {
    if l.len() > 0 && l[l.len() - 1] == '\r' {
        l.drop_last()
    } else {
        l
    }
}

/// The first blank-separated token of `l`; empty when `l` is blank.
pub open spec fn first_token(l: Seq<char>) -> Seq<char> {
    let a = first_nonblank_from(l, 0);
    let b = first_blank_from(l, a);
    l.subrange(a, b)
}

/// The first token of each line of `s`, lines without tokens skipped.
pub open spec fn line_tokens(s: Seq<char>) -> Seq<Seq<char>>
    decreases s.len(),
    via line_tokens_dec
{
    if s.len() == 0 {
        seq![]
    } else {
        let j = first_index_from(s, '\n', 0);
        let t = first_token(strip_cr(s.subrange(0, j)));
        let head: Seq<Seq<char>> = if t.len() > 0 {
            seq![t]
        } else {
            seq![]
        };
        if j < s.len() {
            head + line_tokens(s.subrange(j + 1, s.len() as int))
        } else {
            head
        }
    }
}

#[via_fn]
proof fn line_tokens_dec(s: Seq<char>) {
    if s.len() > 0 {
        lemma_first_index_from_bounds(s, '\n', 0);
    }
}

/// The model names in the daemon's tabular list output: the first token of
/// each line after the header line.
pub open spec fn spec_list_names(s: Seq<char>) -> Seq<Seq<char>> {
    let j = first_index_from(s, '\n', 0);
    if j < s.len() {
        line_tokens(s.subrange(j + 1, s.len() as int))
    } else {
        seq![]
    }
}

/// `r` holds exactly the views of `names`, in order.
pub open spec fn names_match(r: Seq<String>, names: Seq<Seq<char>>) -> bool {
    r.len() == names.len() && forall|k: int| 0 <= k < r.len() ==> (#[trigger] r[k])@ == names[k]
}

/// The first token of each line of `v`, executable form.
fn line_tokens_exec(v: Vec<char>) -> (r: Vec<String>)
    ensures
        names_match(r@, line_tokens(v@)),
    decreases v@.len(),
{
    let mut out: Vec<String> = Vec::new();
    if v.len() == 0 {
        return out;
    }
    let j = first_index_from_exec(&v, '\n', 0);
    let mut line = subvec(&v, 0, j);
    if line.len() > 0 && line[line.len() - 1] == '\r' {
        line.pop();
        proof {
            assert(line@ =~= strip_cr(v@.subrange(0, j as int)));
        }
    }
    proof {
        assert(line@ == strip_cr(v@.subrange(0, j as int)));
        lemma_first_nonblank_from_bounds(line@, 0);
    }
    let a = first_nonblank_from_exec(&line, 0);
    let b = first_blank_from_exec(&line, a);
    let tok = subvec(&line, a, b);
    let mut rest: Vec<String> = if j < v.len() {
        let tail = subvec(&v, j + 1, v.len());
        line_tokens_exec(tail)
    } else {
        Vec::new()
    };
    if tok.len() > 0 {
        let tok_s = string_of(&tok);
        rest.insert(0, tok_s);
    }
    proof {
        assert(names_match(rest@, line_tokens(v@)));
    }
    rest
}

/// A record for a model named `t` served by the daemon.
pub open spec fn ollama_entry_ok(m: DetectedModel, t: Seq<char>) -> bool {
    &&& m.name@ == "ollama:"@ + t
    &&& m.provider is Ollama
    &&& m.path@ == "ollama://"@ + t
    &&& m.size is None
    &&& m.description@ == "Ollama model: "@ + t
}

/// `ms` holds one daemon record per name of `names`, in order.
pub open spec fn ollama_entries_ok(ms: Seq<DetectedModel>, names: Seq<Seq<char>>) -> bool {
    ms.len() == names.len() && forall|k: int|
        0 <= k < ms.len() ==> ollama_entry_ok(#[trigger] ms[k], names[k])
}

/// Turns the daemon's `list` output into inventory records: one per model
/// name found after the header line.
pub fn parse_ollama_list(output: &str) -> (r: Vec<DetectedModel>)
    ensures
        ollama_entries_ok(r@, spec_list_names(output@)),
{
    let v = chars_of(output);
    let mut out: Vec<DetectedModel> = Vec::new();
    let j = first_index_from_exec(&v, '\n', 0);
    if j >= v.len() {
        return out;
    }
    let tail = subvec(&v, j + 1, v.len());
    let names = line_tokens_exec(tail);
    let ghost gnames = spec_list_names(output@);
    let mut k: usize = 0;
    while k < names.len()
        invariant
            names_match(names@, gnames),
            k <= names.len(),
            ollama_entries_ok(out@, gnames.subrange(0, k as int)),
        decreases names.len() - k,
    {
        let name_s: &String = &names[k];
        let m = DetectedModel {
            name: String::from_str("ollama:").concat(name_s.as_str()),
            provider: ModelProvider::Ollama,
            path: String::from_str("ollama://").concat(name_s.as_str()),
            size: None,
            description: String::from_str("Ollama model: ").concat(name_s.as_str()),
        };
        out.push(m);
        k = k + 1;
        proof {
            assert(gnames.subrange(0, k as int).drop_last() =~= gnames.subrange(0, k as int - 1));
            assert(ollama_entries_ok(out@, gnames.subrange(0, k as int)));
        }
    }
    proof {
        assert(gnames.subrange(0, gnames.len() as int) =~= gnames);
    }
    out
}

/// Whether `e` is a file with a recognized weight extension.
pub open spec fn is_weight_file(e: FsEntry) -> bool {
    e.is_file && is_weight_ext(spec_extension(e.name@))
}

/// The entries of `es` that are weight files, in listing order.
pub open spec fn weight_files(es: Seq<FsEntry>) -> Seq<FsEntry>
    decreases es.len(),
{
    if es.len() == 0 {
        seq![]
    } else if is_weight_file(es.last()) {
        weight_files(es.drop_last()).push(es.last())
    } else {
        weight_files(es.drop_last())
    }
}

/// A record for the weight file `e` of directory `dir`, tagged `provider`,
/// with the given name and description prefixes.
pub open spec fn listed_entry_ok(
    m: DetectedModel,
    dir: Seq<char>,
    e: FsEntry,
    provider: ModelProvider,
    name_prefix: Seq<char>,
    desc_prefix: Seq<char>,
) -> bool {
    &&& m.name@ == name_prefix + spec_stem(e.name@)
    &&& m.provider == provider
    &&& m.path@ == spec_join(dir, e.name@)
    &&& m.size == Some(e.size)
    &&& m.description@ == desc_prefix + spec_stem(e.name@) + " ("@ + spec_extension(e.name@)
        + ")"@
}

/// `ms` holds one record per weight file of `files`, in order.
pub open spec fn listed_entries_ok(
    ms: Seq<DetectedModel>,
    dir: Seq<char>,
    files: Seq<FsEntry>,
    provider: ModelProvider,
    name_prefix: Seq<char>,
    desc_prefix: Seq<char>,
) -> bool {
    ms.len() == files.len() && forall|k: int|
        0 <= k < ms.len() ==> listed_entry_ok(
            #[trigger] ms[k],
            dir,
            files[k],
            provider,
            name_prefix,
            desc_prefix,
        )
}

/// Turns a directory listing into inventory records: one per file with a
/// recognized weight extension; every other entry is ignored.
pub fn models_from_listing(
    dir: &str,
    entries: &Vec<FsEntry>,
    provider: &ModelProvider,
    name_prefix: &str,
    desc_prefix: &str,
) -> (r: Vec<DetectedModel>)
    ensures
        listed_entries_ok(
            r@,
            dir@,
            weight_files(entries@),
            *provider,
            name_prefix@,
            desc_prefix@,
        ),
{
    let mut out: Vec<DetectedModel> = Vec::new();
    let mut i: usize = 0;
    while i < entries.len()
        invariant
            i <= entries@.len(),
            listed_entries_ok(
                out@,
                dir@,
                weight_files(entries@.subrange(0, i as int)),
                *provider,
                name_prefix@,
                desc_prefix@,
            ),
        decreases entries.len() - i,
    {
        let e = &entries[i];
        let ext = extension_of(e.name.as_str());
        if e.is_file && weight_ext(ext.as_str()) {
            let stem = stem_of(e.name.as_str());
            let m = DetectedModel {
                name: String::from_str(name_prefix).concat(stem.as_str()),
                provider: provider.duplicate(),
                path: join_path(dir, e.name.as_str()),
                size: Some(e.size),
                description: String::from_str(desc_prefix).concat(stem.as_str()).concat(
                    " (",
                ).concat(ext.as_str()).concat(")"),
            };
            out.push(m);
        }
        i = i + 1;
        proof {
            assert(entries@.subrange(0, i as int).drop_last() =~= entries@.subrange(
                0,
                i as int - 1,
            ));
            assert(entries@.subrange(0, i as int).last() == entries@[i as int - 1]);
        }
    }
    proof {
        assert(entries@.subrange(0, entries@.len() as int) =~= entries@);
    }
    out
}

/// Whether any entry of `entries` is a weight file.
pub fn has_weight_file(entries: &Vec<FsEntry>) -> (r: bool)
    ensures
        r == exists|k: int| 0 <= k < entries@.len() && is_weight_file(#[trigger] entries@[k]),
{
    let mut i: usize = 0;
    while i < entries.len()
        invariant
            i <= entries@.len(),
            forall|k: int| 0 <= k < i ==> !is_weight_file(#[trigger] entries@[k]),
        decreases entries.len() - i,
    {
        let e = &entries[i];
        let ext = extension_of(e.name.as_str());
        if e.is_file && weight_ext(ext.as_str()) {
            return true;
        }
        i = i + 1;
    }
    false
}

/// A record for a hub cache directory `dname` that holds weight files.
pub open spec fn hf_entry_ok(m: DetectedModel, hub: Seq<char>, dname: Seq<char>) -> bool {
    &&& m.name@ == "huggingface:"@ + dname
    &&& m.provider is HuggingFace
    &&& m.path@ == spec_join(hub, dname)
    &&& m.size is None
    &&& m.description@ == "Hugging Face model: "@ + dname
}

/// Whether a gathered hub subdirectory holds at least one weight file.
pub open spec fn dir_has_weight(d: (String, Vec<FsEntry>)) -> bool {
    exists|k: int| 0 <= k < d.1@.len() && is_weight_file(#[trigger] d.1@[k])
}

/// The gathered subdirectories that hold weight files, in order.
pub open spec fn hub_kept(dirs: Seq<(String, Vec<FsEntry>)>) -> Seq<(String, Vec<FsEntry>)>
    decreases dirs.len(),
{
    if dirs.len() == 0 {
        seq![]
    } else if dir_has_weight(dirs.last()) {
        hub_kept(dirs.drop_last()).push(dirs.last())
    } else {
        hub_kept(dirs.drop_last())
    }
}

/// `ms` holds one hub record per kept subdirectory, in order.
pub open spec fn hub_entries_ok(
    ms: Seq<DetectedModel>,
    hub: Seq<char>,
    dirs: Seq<(String, Vec<FsEntry>)>,
) -> bool {
    let kept = hub_kept(dirs);
    ms.len() == kept.len() && forall|k: int|
        0 <= k < ms.len() ==> hf_entry_ok(#[trigger] ms[k], hub, kept[k].0@)
}

/// Turns the gathered hub cache — each subdirectory's name with its own
/// listing — into inventory records: one per subdirectory that directly
/// holds at least one weight file; every other subdirectory is ignored.
pub fn hub_models_from_listings(hub: &str, dirs: &Vec<(String, Vec<FsEntry>)>) -> (r: Vec<
    DetectedModel,
>)
    ensures
        hub_entries_ok(r@, hub@, dirs@),
{
    let mut out: Vec<DetectedModel> = Vec::new();
    let mut i: usize = 0;
    while i < dirs.len()
        invariant
            i <= dirs@.len(),
            hub_entries_ok(out@, hub@, dirs@.subrange(0, i as int)),
        decreases dirs.len() - i,
    {
        let d = &dirs[i];
        if has_weight_file(&d.1) {
            let m = DetectedModel {
                name: String::from_str("huggingface:").concat(d.0.as_str()),
                provider: ModelProvider::HuggingFace,
                path: join_path(hub, d.0.as_str()),
                size: None,
                description: String::from_str("Hugging Face model: ").concat(d.0.as_str()),
            };
            out.push(m);
        }
        i = i + 1;
        proof {
            assert(dirs@.subrange(0, i as int).drop_last() =~= dirs@.subrange(0, i as int - 1));
            assert(dirs@.subrange(0, i as int).last() == dirs@[i as int - 1]);
        }
    }
    proof {
        assert(dirs@.subrange(0, dirs@.len() as int) =~= dirs@);
    }
    out
}

/// Well-formedness of any detected record: its display name opens with the
/// tag of its provider.
pub open spec fn detected_wf(m: DetectedModel) -> bool {
    match m.provider {
        ModelProvider::Ollama => is_prefix(m.name@, "ollama:"@),
        ModelProvider::LMStudio => is_prefix(m.name@, "lmstudio:"@),
        ModelProvider::HuggingFace => is_prefix(m.name@, "huggingface:"@),
        ModelProvider::LocalFile => is_prefix(m.name@, "local:"@),
        _ => true,
    }
}

proof fn lemma_prefix_of_concat(a: Seq<char>, b: Seq<char>)
    ensures
        is_prefix(a + b, a),
{
    assert((a + b).subrange(0, a.len() as int) =~= a);
}

impl ModelDetector {
    /// A detector with no known home directory: only the daemon listing and
    /// the fixed local directories are probed.
    pub fn new() -> (r: ModelDetector)
        ensures
            r.home is None,
    {
        ModelDetector { home: None }
    }

    /// A detector that also probes the per-user directories under `home`.
    pub fn with_home(home: String) -> (r: ModelDetector)
        ensures
            r.home == Some(home),
    {
        ModelDetector { home: Some(home) }
    }

    /// Scans the host for installed models: the daemon listing first, then
    /// the LM Studio directory, the hub cache, and the fixed local
    /// directories. A probe that fails contributes nothing; the scan itself
    /// always returns. Every record carries its provider's name tag.
    pub fn detect_models(&self) -> (r: Vec<DetectedModel>)
        ensures
            forall|k: int| 0 <= k < r@.len() ==> detected_wf(#[trigger] r@[k]),
    {
        let mut out: Vec<DetectedModel> = Vec::new();

        // The daemon's own listing command.
        let prog = String::from_str("ollama");
        let mut args: Vec<String> = Vec::new();
        args.push(String::from_str("list"));
        match run_process(&prog, &args) {
            Some(o) => {
                if o.success {
                    let mut ms = parse_ollama_list(o.stdout.as_str());
                    proof {
                        assert forall|k: int| 0 <= k < ms@.len() implies detected_wf(
                            #[trigger] ms@[k],
                        ) by {
                            lemma_prefix_of_concat("ollama:"@, spec_list_names(o.stdout@)[k]);
                        }
                    }
                    out.append(&mut ms);
                }
            },
            None => {},
        }

        // The LM Studio model directory, when home is known.
        match &self.home {
            Some(h) => {
                let lm_dir = h.clone().concat("/.local/share/lm-studio/models");
                match fs_list_dir(&lm_dir) {
                    Some(entries) => {
                        let mut ms = models_from_listing(
                            lm_dir.as_str(),
                            &entries,
                            &ModelProvider::LMStudio,
                            "lmstudio:",
                            "LM Studio model: ",
                        );
                        proof {
                            assert forall|k: int| 0 <= k < ms@.len() implies detected_wf(
                                #[trigger] ms@[k],
                            ) by {
                                lemma_prefix_of_concat(
                                    "lmstudio:"@,
                                    spec_stem(weight_files(entries@)[k].name@),
                                );
                            }
                        }
                        out.append(&mut ms);
                    },
                    None => {},
                }
            },
            None => {},
        }

        // The hub cache: directories that hold at least one weight file.
        match &self.home {
            Some(h) => {
                let hub = h.clone().concat("/.cache/huggingface/hub");
                match fs_list_dir(&hub) {
                    Some(entries) => {
                        let mut subs: Vec<(String, Vec<FsEntry>)> = Vec::new();
                        let mut i: usize = 0;
                        while i < entries.len()
                            decreases entries.len() - i,
                        {
                            let e = &entries[i];
                            if !e.is_file {
                                let sub = join_path(hub.as_str(), e.name.as_str());
                                match fs_list_dir(&sub) {
                                    Some(files) => {
                                        subs.push((e.name.clone(), files));
                                    },
                                    None => {},
                                }
                            }
                            i = i + 1;
                        }
                        let mut ms = hub_models_from_listings(hub.as_str(), &subs);
                        proof {
                            assert forall|k: int| 0 <= k < ms@.len() implies detected_wf(
                                #[trigger] ms@[k],
                            ) by {
                                lemma_prefix_of_concat(
                                    "huggingface:"@,
                                    hub_kept(subs@)[k].0@,
                                );
                            }
                        }
                        out.append(&mut ms);
                    },
                    None => {},
                }
            },
            None => {},
        }

        // The fixed local directories.
        let mut dirs: Vec<String> = Vec::new();
        dirs.push(crate::paths::get_models_dir());
        match &self.home {
            Some(h) => {
                dirs.push(h.clone().concat("/models"));
            },
            None => {},
        }
        dirs.push(String::from_str("models"));
        let mut d: usize = 0;
        while d < dirs.len()
            invariant
                forall|k: int| 0 <= k < out@.len() ==> detected_wf(#[trigger] out@[k]),
            decreases dirs.len() - d,
        {
            let dir = &dirs[d];
            match fs_list_dir(dir) {
                Some(entries) => {
                    let mut ms = models_from_listing(
                        dir.as_str(),
                        &entries,
                        &ModelProvider::LocalFile,
                        "local:",
                        "Local model file: ",
                    );
                    proof {
                        assert forall|k: int| 0 <= k < ms@.len() implies detected_wf(
                            #[trigger] ms@[k],
                        ) by {
                            lemma_prefix_of_concat(
                                "local:"@,
                                spec_stem(weight_files(entries@)[k].name@),
                            );
                        }
                    }
                    out.append(&mut ms);
                },
                None => {},
            }
            d = d + 1;
        }
        out
    }

    /// Renders a byte count for display.
    pub fn format_size(size_bytes: Option<u64>) -> (r: String)
        ensures
            r@ == spec_format_size_opt(size_bytes),
    {
        format_size_opt_string(size_bytes)
    }
}

} // verus!
