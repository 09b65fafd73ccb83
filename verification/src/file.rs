//! The entry model: what the traversal logic reads of a filesystem object.
//! The raw metadata itself (permissions, owner, size, ...) belongs to the
//! rendering layer outside the core; the core only gates on these bits.

use vstd::prelude::*;

verus! {

/// The bits of one metadata lookup that classification reads.
#[derive(Clone, Copy, Debug, PartialEq, Eq, Structural)]
pub struct Stat {
    pub is_dir: bool,
    pub is_link: bool,
}

/// A resolved filesystem entry: one path together with the classification
/// bits the traversal needs.
pub struct File {
    /// The path the entry was found under.
    pub path: String,
    /// The object is a directory.
    pub is_dir: bool,
    /// The object is a symbolic link.
    pub is_link: bool,
    /// The entry is a directory that is rendered as a single entry
    /// (flattened mode), so it must never be expanded.
    pub as_file: bool,
}

impl File {
    pub fn new(path: String, stat: Stat, as_file: bool) -> (r: File)
        ensures
            r == (File { path, is_dir: stat.is_dir, is_link: stat.is_link, as_file }),
    {
        File { path, is_dir: stat.is_dir, is_link: stat.is_link, as_file }
    }

    /// Whether the entry is a directory; expanded directories re-push
    /// exactly the children for which this holds.
    pub fn is_directory(&self) -> (r: bool)
        ensures
            r == self.is_dir,
    {
        self.is_dir
    }
}

} // verus!
