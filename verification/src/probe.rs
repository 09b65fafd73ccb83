//! One probe: a single metadata lookup classified into an outcome, and the
//! shape of a whole batch of outcomes. Exactly one outcome exists per
//! target, so across the three buckets (resolved files, pending
//! directories, failures) nothing is lost and nothing is duplicated.

use vstd::prelude::*;

use crate::file::{File, Stat};

verus! {

/// The outcome of probing one target path.
pub enum StatResult {
    /// The path names something to list as a plain entry: a non-directory,
    /// or a directory while directories are rendered as single entries.
    File(File),
    /// The path names a directory awaiting expansion.
    Path(String),
    /// The path could not be probed; the prober reported the error at the
    /// point of failure and resolution goes on.
    Error,
}

/// Classifies one probe: `stat` is the metadata lookup's result (`None`
/// when the lookup failed), `as_file_mode` says that directories are
/// rendered as single entries (tree or directory-as-file mode).
pub fn classify_probe(path: String, stat: Option<Stat>, as_file_mode: bool) -> (r: StatResult)
    ensures
        r == (match stat {
            None => StatResult::Error,
            Some(s) => if !s.is_dir {
                StatResult::File(File { path, is_dir: s.is_dir, is_link: s.is_link, as_file: false })
            } else if as_file_mode {
                StatResult::File(File { path, is_dir: s.is_dir, is_link: s.is_link, as_file: true })
            } else {
                StatResult::Path(path)
            },
        }),
{
    match stat {
        None => StatResult::Error,
        Some(s) => {
            if !s.is_dir {
                StatResult::File(File::new(path, s, false))
            } else if as_file_mode {
                StatResult::File(File::new(path, s, true))
            } else {
                StatResult::Path(path)
            }
        },
    }
}

/// The resolved files of a batch of outcomes, in arrival order.
pub open spec fn file_entries(s: Seq<StatResult>) -> Seq<File>
    decreases s.len(),
{
    if s.len() == 0 {
        Seq::empty()
    } else {
        file_entries(s.drop_last()) + (match s.last() {
            StatResult::File(f) => seq![f],
            _ => Seq::empty(),
        })
    }
}

/// The pending directories of a batch of outcomes, in arrival order.
pub open spec fn dir_paths(s: Seq<StatResult>) -> Seq<String>
    decreases s.len(),
{
    if s.len() == 0 {
        Seq::empty()
    } else {
        dir_paths(s.drop_last()) + (match s.last() {
            StatResult::Path(p) => seq![p],
            _ => Seq::empty(),
        })
    }
}

/// How many outcomes of a batch were failures.
pub open spec fn failure_count(s: Seq<StatResult>) -> nat
    decreases s.len(),
{
    if s.len() == 0 {
        0nat
    } else {
        failure_count(s.drop_last()) + (match s.last() {
            StatResult::Error => 1nat,
            _ => 0nat,
        })
    }
}

/// No outcome is lost or duplicated: a batch of outcomes splits exactly
/// into its resolved files, its pending directories and its failures.
pub proof fn lemma_no_outcome_lost(s: Seq<StatResult>)
    ensures
        file_entries(s).len() + dir_paths(s).len() + failure_count(s) == s.len(),
    decreases s.len(),
{
    if s.len() > 0 {
        lemma_no_outcome_lost(s.drop_last());
    }
}

} // verus!
