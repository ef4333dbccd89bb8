//! Trusted filesystem access. Every function here makes one filesystem call
//! through tokio and converts the outcome to plain values. What is on disk
//! can change between calls, so no contract relates two calls or pins a
//! result; callers state what holds of every outcome. Each call drives its
//! own runtime, so the library is to be called from synchronous code only,
//! as the shell around it does.

use vstd::prelude::*;

verus! {

/// What a path names on disk.
#[derive(Clone, Copy, PartialEq, Eq, Structural, Debug)]
pub enum FsNodeKind {
    Missing,
    File,
    Dir,
}

/// One entry of a directory listing.
#[derive(Clone, Debug)]
pub struct FsEntry {
    pub name: String,
    pub is_file: bool,
    pub size: u64,
}

/// Relies on tokio::fs::metadata: whether `path` names a file, a directory,
/// or nothing readable.
#[verifier::external_body]
pub(crate) fn fs_node_kind(path: &String) -> FsNodeKind {
    let rt = match tokio::runtime::Builder::new_current_thread().enable_all().build() {
        Ok(rt) => rt,
        Err(_) => return FsNodeKind::Missing,
    };
    match rt.block_on(tokio::fs::metadata(path)) {
        Ok(md) if md.is_file() => FsNodeKind::File,
        Ok(_) => FsNodeKind::Dir,
        Err(_) => FsNodeKind::Missing,
    }
}

/// Relies on tokio::fs::read_to_string: the contents of `path` as text, or
/// `None` when the file cannot be read as UTF-8 text.
#[verifier::external_body]
pub(crate) fn fs_read_to_string(path: &String) -> Option<String> {
    let rt = tokio::runtime::Builder::new_current_thread().enable_all().build().ok()?;
    rt.block_on(tokio::fs::read_to_string(path)).ok()
}

/// Relies on tokio::fs::read_dir: the entries of the directory `path` with
/// their file/directory kind and size, or `None` when it cannot be listed.
/// An entry whose metadata cannot be read is skipped, not fatal.
#[verifier::external_body]
pub(crate) fn fs_list_dir(path: &String) -> Option<Vec<FsEntry>> {
    let rt = tokio::runtime::Builder::new_current_thread().enable_all().build().ok()?;
    let mut rd = rt.block_on(tokio::fs::read_dir(path)).ok()?;
    let mut v: Vec<FsEntry> = Vec::new();
    loop {
        let e = match rt.block_on(rd.next_entry()) {
            Ok(Some(e)) => e,
            _ => return Some(v),
        };
        let name = e.file_name().to_string_lossy().into_owned();
        if let Ok(md) = rt.block_on(e.metadata()) {
            v.push(FsEntry { name, is_file: md.is_file(), size: md.len() });
        }
    }
}

/// Relies on tokio::fs::write: writes `contents` to `path`; whether it
/// succeeded.
#[verifier::external_body]
pub(crate) fn fs_write_string(path: &String, contents: &String) -> bool {
    let rt = match tokio::runtime::Builder::new_current_thread().enable_all().build() {
        Ok(rt) => rt,
        Err(_) => return false,
    };
    rt.block_on(tokio::fs::write(path, contents.as_bytes())).is_ok()
}

/// Relies on tokio::fs::write: writes raw bytes to `path`; whether it
/// succeeded.
#[verifier::external_body]
pub(crate) fn fs_write_bytes(path: &String, contents: &Vec<u8>) -> bool {
    let rt = match tokio::runtime::Builder::new_current_thread().enable_all().build() {
        Ok(rt) => rt,
        Err(_) => return false,
    };
    rt.block_on(tokio::fs::write(path, contents.as_slice())).is_ok()
}

/// Relies on tokio::fs::create_dir_all: creates `path` and its parents;
/// whether the directory exists afterwards.
#[verifier::external_body]
pub(crate) fn fs_create_dir_all(path: &String) -> bool {
    let rt = match tokio::runtime::Builder::new_current_thread().enable_all().build() {
        Ok(rt) => rt,
        Err(_) => return false,
    };
    rt.block_on(tokio::fs::create_dir_all(path)).is_ok()
}

} // verus!
