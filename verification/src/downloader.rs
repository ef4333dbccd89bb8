//! The model downloader. A dummy example URL produces a placeholder
//! artifact — a file opening with the placeholder sentinel — rather than a
//! real download; a hub page cannot be fetched directly and says so; any
//! other URL is fetched and written under its last path segment.

use vstd::prelude::*;
use vstd::string::*;
use crate::strings::{contains_seq, contains_sub, push_str_chars, string_of};
use crate::pathstr::{file_name_of, join_path};
use crate::placeholder::{spec_sentinel, sentinel_str, is_placeholder_text};
use crate::sizefmt::{spec_format_size, format_size_string};
use crate::fsio::{fs_create_dir_all, fs_write_string, fs_write_bytes};
use crate::httpio::http_get_bytes;
use crate::ollama::is_success_status;
use crate::errors::ModelError;

verus! {

/// Downloads model files.
#[derive(Clone, Debug)]
pub struct ModelDownloader;

/// The placeholder file name a dummy URL maps to: the small or large
/// variant when the URL mentions that word, the default otherwise.
pub open spec fn spec_placeholder_name(url: Seq<char>) -> Seq<char> {
    if contains_seq(url, "small"@) {
        "digios-default-small"@
    } else if contains_seq(url, "large"@) {
        "digios-default-large"@
    } else {
        "digios-default"@
    }
}

/// The placeholder file name for a dummy URL, executable form.
pub fn placeholder_name_for(url: &str) -> (r: String)
    ensures
        r@ == spec_placeholder_name(url@),
{
    if contains_sub(url, "small") {
        String::from_str("digios-default-small")
    } else if contains_sub(url, "large") {
        String::from_str("digios-default-large")
    } else {
        String::from_str("digios-default")
    }
}

/// The contents written into a placeholder artifact: the sentinel line
/// first, then the dummy URL and remediation steps.
pub open spec fn spec_placeholder_contents(url: Seq<char>, path: Seq<char>) -> Seq<char> {
    spec_sentinel() + "\nURL: "@ + url
        + "\nStatus: placeholder standing in for a real download\n\nTo use a real model:\n1. Download a compatible model file\n2. Place it at: "@
        + path + "\n3. Update model.json with the correct path\n"@
}

/// Placeholder contents are recognized as such: they open with the
/// sentinel.
pub proof fn lemma_placeholder_contents_recognized(url: Seq<char>, path: Seq<char>)
    ensures
        is_placeholder_text(spec_placeholder_contents(url, path)),
{
    let s = spec_placeholder_contents(url, path);
    assert(s.subrange(0, spec_sentinel().len() as int) =~= spec_sentinel());
}

/// Builds the contents of a placeholder artifact.
pub fn build_placeholder_contents(url: &str, path: &str) -> (r: String)
    ensures
        r@ == spec_placeholder_contents(url@, path@),
        is_placeholder_text(r@),
{
    let mut out: Vec<char> = Vec::new();
    push_str_chars(sentinel_str(), &mut out);
    push_str_chars("\nURL: ", &mut out);
    push_str_chars(url, &mut out);
    push_str_chars(
        "\nStatus: placeholder standing in for a real download\n\nTo use a real model:\n1. Download a compatible model file\n2. Place it at: ",
        &mut out,
    );
    push_str_chars(path, &mut out);
    push_str_chars("\n3. Update model.json with the correct path\n", &mut out);
    proof {
        assert(out@ =~= spec_placeholder_contents(url@, path@));
        lemma_placeholder_contents_recognized(url@, path@);
    }
    string_of(&out)
}

impl ModelDownloader {
    pub fn new() -> (r: Self) {
        ModelDownloader
    }

    /// Downloads from `url` into `dest_dir`. A dummy example URL writes a
    /// placeholder artifact under its size-matched name; a hub page is a
    /// download failure asking for a manual fetch; any other URL is fetched
    /// and written under its last path segment.
    pub fn download(&self, url: &str, dest_dir: &String) -> Result<(), ModelError> {
        if !fs_create_dir_all(dest_dir) {
            return Err(
                ModelError::FileSystem {
                    detail: String::from_str("could not create the destination directory"),
                },
            );
        }
        if contains_sub(url, "example.com") {
            let name = placeholder_name_for(url);
            let path = join_path(dest_dir.as_str(), name.as_str());
            let contents = build_placeholder_contents(url, path.as_str());
            if fs_write_string(&path, &contents) {
                Ok(())
            } else {
                Err(
                    ModelError::FileSystem {
                        detail: String::from_str("could not write the placeholder file"),
                    },
                )
            }
        } else if contains_sub(url, "huggingface.co") {
            Err(
                ModelError::DownloadFailed {
                    detail: String::from_str(
                        "hub pages need a manual download; fetch the model from the page and place it in the models directory",
                    ),
                },
            )
        } else {
            self.download_generic(url, dest_dir)
        }
    }

    /// Fetches `url` and writes the body under its last path segment, or
    /// under a fixed name when the URL ends in a separator.
    fn download_generic(&self, url: &str, dest_dir: &String) -> Result<(), ModelError> {
        let url_s = String::from_str(url);
        match http_get_bytes(&url_s, 300) {
            Some((status, bytes)) => {
                if !is_success_status(status) {
                    let detail = String::from_str("HTTP status ").concat(
                        crate::strings::u64_to_dec_string(status as u64).as_str(),
                    );
                    return Err(ModelError::DownloadFailed { detail });
                }
                let fname = file_name_of(url);
                let name = if fname.as_str().unicode_len() == 0 {
                    String::from_str("model.bin")
                } else {
                    fname
                };
                let path = join_path(dest_dir.as_str(), name.as_str());
                if fs_write_bytes(&path, &bytes) {
                    Ok(())
                } else {
                    Err(
                        ModelError::FileSystem {
                            detail: String::from_str("could not write the downloaded file"),
                        },
                    )
                }
            },
            None => Err(
                ModelError::DownloadFailed {
                    detail: String::from_str("no reply from the download URL"),
                },
            ),
        }
    }

    /// Renders a byte count for progress display.
    pub fn format_bytes(bytes: u64) -> (r: String)
        ensures
            r@ == spec_format_size(bytes),
    {
        format_size_string(bytes)
    }
}

} // verus!
