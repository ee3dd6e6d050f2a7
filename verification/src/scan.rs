//! The boundary between the verified detection logic and the filesystem: a
//! directory walk is reduced to a sequence of plain entry records, and the
//! logic that reads them is verified for every sequence the walk could hand
//! back.

use vstd::prelude::*;

verus! {

/// One entry met during a directory walk, reduced to plain values: where it
/// lies, how deep below the search root, and the pieces of its path that
/// detection reads.
#[derive(Debug, Clone)]
pub struct FsEntry {
    /// Full path of the entry.
    pub path: String,
    /// Path of the entry's parent directory (empty at a filesystem root).
    pub parent: String,
    /// Last component of `path`.
    pub file_name: String,
    /// Depth below the search root; the root itself has depth zero.
    pub depth: usize,
    /// Whether the entry is a directory.
    pub is_dir: bool,
}

/// The mathematical value of an `FsEntry`.
pub struct FsEntryView {
    pub path: Seq<char>,
    pub parent: Seq<char>,
    pub file_name: Seq<char>,
    pub depth: nat,
    pub is_dir: bool,
}

impl View for FsEntry {
    type V = FsEntryView;

    open spec fn view(&self) -> FsEntryView {
        FsEntryView {
            path: self.path@,
            parent: self.parent@,
            file_name: self.file_name@,
            depth: self.depth as nat,
            is_dir: self.is_dir,
        }
    }
}

/// The views of a sequence of walked entries.
pub open spec fn entries_view(s: Seq<FsEntry>) -> Seq<FsEntryView> {
    s.map_values(|e: FsEntry| e@)
}

/// Relies on walkdir::WalkDir: walks the tree under `root` and yields every
/// entry whose depth lies between `min_depth` and `max_depth`, in a
/// directory-before-contents order. Each entry is handed out as plain
/// values. A per-entry traversal error is skipped; an error at depth zero
/// means the walk could not start at all, and its message is returned
/// instead. What comes back depends on the machine's filesystem, so nothing
/// is promised of the entries.
#[verifier::external_body]
pub(crate) fn walk_dir(root: &str, min_depth: usize, max_depth: usize) -> (r: Result<
    Vec<FsEntry>,
    String,
>) {
    let mut out: Vec<FsEntry> = Vec::new();
    for entry in walkdir::WalkDir::new(root).min_depth(min_depth).max_depth(max_depth) {
        let e = match entry { Ok(e) => e, Err(err) if err.depth() == 0 => return Err(err.to_string()), Err(_) => continue };
        out.push(FsEntry {
            path: e.path().display().to_string(),
            parent: e.path().parent().map(|q| q.display().to_string()).unwrap_or_default(),
            file_name: e.file_name().to_string_lossy().into_owned(),
            depth: e.depth(),
            is_dir: e.file_type().is_dir(),
        });
    }
    Ok(out)
}

/// Relies on std::path::Path::exists: whether anything exists on disk at
/// `path` at the moment of the call. The answer depends on the machine's
/// filesystem, so nothing is promised of it.
#[verifier::external_body]
pub(crate) fn path_exists(path: &str) -> bool {
    std::path::Path::new(path).exists()
}

} // verus!
