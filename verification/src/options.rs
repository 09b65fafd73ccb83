//! The options that gate traversal: how directories are treated, how deep
//! recursion may go, and which renderer a batch is handed to.

use vstd::prelude::*;

verus! {

/// Which renderer the caller should hand a batch of entries to.
/// Rendering itself is outside the core.
#[derive(Clone, Copy, Debug, PartialEq, Eq, Structural)]
pub enum ViewKind {
    Grid,
    Details,
    Lines,
}

/// Options for recursive expansion of directories.
#[derive(Clone, Copy, Debug, PartialEq, Eq, Structural)]
pub struct RecurseOptions {
    /// Flattened ("tree") rendering: entries are shown inline, so the
    /// traversal stack must never grow.
    pub tree: bool,
    /// Maximum depth at which a directory may still be expanded;
    /// `None` means unlimited.
    pub max_depth: Option<usize>,
}

/// What to do when an input path turns out to be a directory.
#[derive(Clone, Copy, Debug, PartialEq, Eq, Structural)]
pub enum DirAction {
    /// Expand it later: push it on the pending-directory stack.
    List,
    /// Show the directory itself as a single entry, never its contents.
    AsFile,
    /// Expand it, and keep expanding subdirectories as allowed.
    Recurse(RecurseOptions),
}

/// The options the core reads.
#[derive(Clone, Copy, Debug, PartialEq, Eq, Structural)]
pub struct Options {
    pub dir_action: DirAction,
    pub view_kind: ViewKind,
}

impl RecurseOptions {
    /// Whether a directory sitting at `depth` is too deep to be expanded.
    pub fn is_too_deep(&self, depth: usize) -> (r: bool)
        ensures
            r == spec_too_deep(self.max_depth, depth as nat),
    {
        match self.max_depth {
            Some(d) => depth > d,
            None => false,
        }
    }
}

/// A directory at `depth` is beyond the configured maximum.
pub open spec fn spec_too_deep(max_depth: Option<usize>, depth: nat) -> bool {
    match max_depth {
        Some(d) => depth > d,
        None => false,
    }
}

impl DirAction {
    /// Flattened ("tree") rendering is in force.
    pub fn is_tree(&self) -> (r: bool)
        ensures
            r == self.spec_is_tree(),
    {
        match self {
            DirAction::Recurse(opts) => opts.tree,
            _ => false,
        }
    }

    pub open spec fn spec_is_tree(self) -> bool {
        match self {
            DirAction::Recurse(opts) => opts.tree,
            _ => false,
        }
    }

    /// Directories are rendered as single entries.
    pub fn is_as_file(&self) -> (r: bool)
        ensures
            r == (self is AsFile),
    {
        match self {
            DirAction::AsFile => true,
            _ => false,
        }
    }

    /// The recursion options, when recursive expansion is enabled.
    pub fn recurse_options(&self) -> (r: Option<RecurseOptions>)
        ensures
            r == self.spec_recurse_options(),
    {
        match self {
            DirAction::Recurse(opts) => Some(*opts),
            _ => None,
        }
    }

    pub open spec fn spec_recurse_options(self) -> Option<RecurseOptions> {
        match self {
            DirAction::Recurse(opts) => Some(opts),
            _ => None,
        }
    }
}

} // verus!
