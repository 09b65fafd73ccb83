//! The listing driver: the aggregator that collects probe outcomes into
//! the two buckets, and the explicit-stack traversal that expands pending
//! directories, depth-bounded, preserving the transform's display order
//! across the LIFO stack.

use vstd::prelude::*;

use crate::depth::{depth_of, spec_depth_of};
use crate::file::File;
use crate::options::{DirAction, Options, ViewKind, spec_too_deep};
use crate::probe::{StatResult, dir_paths, failure_count, file_entries};

verus! {

/// The display-order subdirectories of an expanded directory's transformed
/// children: the paths of the children that are directories, in the
/// children's own order.
pub open spec fn subdir_paths(children: Seq<File>) -> Seq<String>
    decreases children.len(),
{
    if children.len() == 0 {
        Seq::empty()
    } else {
        (if children[0].is_dir {
            seq![children[0].path]
        } else {
            Seq::empty()
        }) + subdir_paths(children.skip(1))
    }
}

/// The same subdirectories in reverse display order: what one expansion
/// appends to the stack, so that popping yields display order again.
pub open spec fn rev_subdir_paths(children: Seq<File>) -> Seq<String>
    decreases children.len(),
{
    if children.len() == 0 {
        Seq::empty()
    } else {
        rev_subdir_paths(children.skip(1)) + (if children[0].is_dir {
            seq![children[0].path]
        } else {
            Seq::empty()
        })
    }
}

/// What one expansion pushes is exactly the display-order subdirectory
/// list reversed.
pub proof fn lemma_rev_subdir_is_reverse(children: Seq<File>)
    ensures
        rev_subdir_paths(children) == subdir_paths(children).reverse(),
    decreases children.len(),
{
    if children.len() == 0 {
        assert(subdir_paths(children).reverse() =~= Seq::<String>::empty());
    } else {
        let tail = children.skip(1);
        lemma_rev_subdir_is_reverse(tail);
        let head = if children[0].is_dir {
            seq![children[0].path]
        } else {
            Seq::<String>::empty()
        };
        assert(subdir_paths(children).reverse() =~= subdir_paths(tail).reverse() + head);
    }
}

/// An expansion of the directory at `dir_path` re-pushes subdirectories
/// exactly when recursive expansion is enabled, the mode is not flattened
/// ("tree"), and the directory's recomputed depth is within the limit.
pub open spec fn spec_should_recurse(action: DirAction, dir_path: Seq<char>) -> bool {
    match action {
        DirAction::Recurse(opts) => !opts.tree && !spec_too_deep(
            opts.max_depth,
            spec_depth_of(dir_path),
        ),
        _ => false,
    }
}

/// What expanding the directory at `dir_path` appends to the stack.
pub open spec fn pushed_subdirs(action: DirAction, dir_path: Seq<char>, children: Seq<File>) -> Seq<
    String,
> {
    if spec_should_recurse(action, dir_path) {
        rev_subdir_paths(children)
    } else {
        Seq::empty()
    }
}

/// Flattened ("tree") mode disables stack pushes regardless of depth.
pub proof fn lemma_tree_mode_no_push(action: DirAction, dir_path: Seq<char>, children: Seq<File>)
    requires
        action.spec_is_tree(),
    ensures
        pushed_subdirs(action, dir_path, children) == Seq::<String>::empty(),
{
}

/// With a maximum depth configured, a directory beyond it contributes no
/// pushes: its children are still emitted as entries, but none of them is
/// ever expanded through the stack.
pub proof fn lemma_depth_limit_no_push(
    action: DirAction,
    dir_path: Seq<char>,
    children: Seq<File>,
    max: usize,
)
    requires
        action matches DirAction::Recurse(o) && o.max_depth == Some(max),
        spec_depth_of(dir_path) > max,
    ensures
        pushed_subdirs(action, dir_path, children) == Seq::<String>::empty(),
{
}

/// Push/pop order preserves display order: after one expansion pushes its
/// eligible children, the i-th subdirectory in display order sits i places
/// below the top of the stack, so successive pops (absent interleaving
/// pushes) expand the subdirectories in display order.
pub proof fn lemma_push_pop_display_order(stack: Seq<String>, children: Seq<File>, i: int)
    requires
        0 <= i < subdir_paths(children).len(),
    ensures
        ({
            let stack2 = stack + rev_subdir_paths(children);
            stack2[stack2.len() - 1 - i] == subdir_paths(children)[i]
        }),
{
    lemma_rev_subdir_is_reverse(children);
}

/// The listing operation: the two accounting counters, the options, and
/// the two buckets the resolver fills — standalone files, and the stack of
/// pending directories.
pub struct Exa {
    /// Outcomes accounted for by the resolver, failures included: the
    /// termination condition is that this reaches the number of targets.
    pub count: usize,
    /// Entries handed to the printer so far — resolved files, pending
    /// directories and expansions, never failures. Decides only the
    /// directory-name header, nothing about resolution.
    pub processed: usize,
    pub options: Options,
    /// Pending directories, used as a LIFO stack.
    pub dirs: Vec<String>,
    /// Standalone files, printed before any directory is expanded.
    pub files: Vec<File>,
}

impl Exa {
    pub fn new(options: Options) -> (r: Exa)
        ensures
            r.count == 0,
            r.processed == 0,
            r.options == options,
            r.dirs@ == Seq::<String>::empty(),
            r.files@ == Seq::<File>::empty(),
    {
        Exa { count: 0, processed: 0, options, dirs: Vec::new(), files: Vec::new() }
    }

    /// The aggregator's handling of one completed probe: the outcome lands
    /// in its bucket — or in neither, for a failure — and the accounted
    /// count advances either way, so termination never waits on a
    /// never-arriving success. Only a file or a pending directory is an
    /// entry for the printer, so a failure leaves `processed` alone.
    pub fn record_outcome(&mut self, outcome: StatResult)
        requires
            old(self).count < usize::MAX,
            old(self).processed < usize::MAX,
        ensures
            final(self).count == old(self).count + 1,
            final(self).processed == old(self).processed + (if outcome is Error {
                0int
            } else {
                1int
            }),
            final(self).options == old(self).options,
            final(self).files@ == old(self).files@ + (match outcome {
                StatResult::File(f) => seq![f],
                _ => Seq::<File>::empty(),
            }),
            final(self).dirs@ == old(self).dirs@ + (match outcome {
                StatResult::Path(p) => seq![p],
                _ => Seq::<String>::empty(),
            }),
    {
        let is_failure = match &outcome {
            StatResult::Error => true,
            _ => false,
        };
        match outcome {
            StatResult::File(f) => {
                self.files.push(f);
                proof {
                    assert(self.files@ =~= old(self).files@ + seq![f]);
                    assert(self.dirs@ =~= old(self).dirs@ + Seq::<String>::empty());
                }
            },
            StatResult::Path(p) => {
                self.dirs.push(p);
                proof {
                    assert(self.dirs@ =~= old(self).dirs@ + seq![p]);
                    assert(self.files@ =~= old(self).files@ + Seq::<File>::empty());
                }
            },
            StatResult::Error => {
                proof {
                    assert(self.files@ =~= old(self).files@ + Seq::<File>::empty());
                    assert(self.dirs@ =~= old(self).dirs@ + Seq::<String>::empty());
                }
            },
        }
        self.count = self.count + 1;
        if !is_failure {
            self.processed = self.processed + 1;
        }
    }

    /// The aggregator loop: consumes exactly one outcome per target, in
    /// arrival order, and returns only once all of them are accounted for.
    /// Files and pending directories land in their buckets in arrival
    /// order; failures advance only the accounted count, never the
    /// printer's entry count.
    pub fn resolve(&mut self, outcomes: Vec<StatResult>)
        requires
            old(self).count + outcomes@.len() <= usize::MAX,
            old(self).processed + outcomes@.len() <= usize::MAX,
        ensures
            final(self).count == old(self).count + outcomes@.len(),
            final(self).processed + failure_count(outcomes@) == old(self).processed
                + outcomes@.len(),
            final(self).options == old(self).options,
            final(self).files@ == old(self).files@ + file_entries(outcomes@),
            final(self).dirs@ == old(self).dirs@ + dir_paths(outcomes@),
    {
        let ghost all = outcomes@;
        let mut rem = outcomes;
        proof {
            assert(rem@ =~= all.skip(0));
            assert(all.take(0) =~= Seq::<StatResult>::empty());
            assert(self.files@ =~= self.files@ + file_entries(all.take(0)));
            assert(self.dirs@ =~= self.dirs@ + dir_paths(all.take(0)));
            assert(failure_count(all.take(0)) == 0);
        }
        while rem.len() > 0
            invariant
                rem@.len() <= all.len(),
                rem@ == all.skip(all.len() - rem@.len()),
                self.count == old(self).count + (all.len() - rem@.len()),
                self.count + rem@.len() <= usize::MAX,
                self.processed + failure_count(all.take(all.len() - rem@.len()))
                    == old(self).processed + (all.len() - rem@.len()),
                self.processed + rem@.len() <= usize::MAX,
                self.options == old(self).options,
                self.files@ == old(self).files@ + file_entries(all.take(all.len() - rem@.len())),
                self.dirs@ == old(self).dirs@ + dir_paths(all.take(all.len() - rem@.len())),
            decreases rem@.len(),
        {
            let ghost k = all.len() - rem@.len();
            let outcome = rem.remove(0);
            proof {
                assert(outcome == all[k]);
                assert(rem@ =~= all.skip(k + 1));
                assert(all.take(k + 1).drop_last() =~= all.take(k));
                assert(all.take(k + 1).last() == all[k]);
            }
            self.record_outcome(outcome);
            proof {
                assert(self.files@ =~= old(self).files@ + file_entries(all.take(k + 1)));
                assert(self.dirs@ =~= old(self).dirs@ + dir_paths(all.take(k + 1)));
            }
        }
        proof {
            assert(all.take(all.len() as int) =~= all);
        }
    }

    /// The standalone-files batch, printed before any directory is
    /// expanded; nothing is printed when no standalone file resolved.
    pub fn print_files(&self) -> (r: Option<&Vec<File>>)
        ensures
            r is Some <==> self.files@.len() > 0,
            r matches Some(v) ==> v@ == self.files@,
    {
        if self.files.len() > 0 {
            Some(&self.files)
        } else {
            None
        }
    }

    /// Chooses the renderer for one batch. Rendering itself is outside the
    /// core: the caller hands the batch, with its directory context if
    /// any, to the renderer this names.
    pub fn print(&self, files: &Vec<File>) -> (r: ViewKind)
        ensures
            r == self.options.view_kind,
    {
        self.options.view_kind
    }

    /// Whether the very first directory expansion omits the separating
    /// blank line: it does exactly when there was no standalone-files
    /// batch before it.
    pub fn first_expansion(&self) -> (r: bool)
        ensures
            r == (self.files@.len() == 0),
    {
        self.files.len() == 0
    }

    /// Takes the next pending directory from the top of the stack; the
    /// traversal is done when this returns nothing.
    pub fn pop_dir(&mut self) -> (r: Option<String>)
        ensures
            final(self).count == old(self).count,
            final(self).processed == old(self).processed,
            final(self).options == old(self).options,
            final(self).files@ == old(self).files@,
            old(self).dirs@.len() == 0 ==> r is None && final(self).dirs@ == old(self).dirs@,
            old(self).dirs@.len() > 0 ==> r == Some(old(self).dirs@.last()) && final(self).dirs@
                == old(self).dirs@.drop_last(),
    {
        self.dirs.pop()
    }

    /// One traversal step, after the caller has read `dir_path`'s children
    /// and applied the external transform to them: the eligible
    /// subdirectories are appended to the stack in reverse display order —
    /// flattened ("tree") mode and the depth limit each disable every push
    /// — the batch handed out counts as one more printed entry, and the
    /// result says whether a directory-name header precedes it (only once
    /// more than one entry — file or directory — has been processed).
    pub fn expand_dir(&mut self, dir_path: &String, children: &Vec<File>) -> (r: bool)
        requires
            old(self).processed < usize::MAX,
            dir_path@.len() + 2 <= usize::MAX,
        ensures
            r == (old(self).processed > 1),
            final(self).processed == old(self).processed + 1,
            final(self).count == old(self).count,
            final(self).options == old(self).options,
            final(self).files@ == old(self).files@,
            final(self).dirs@ == old(self).dirs@ + pushed_subdirs(
                old(self).options.dir_action,
                dir_path@,
                children@,
            ),
    {
        let do_push = match self.options.dir_action.recurse_options() {
            Some(opts) => !opts.tree && !opts.is_too_deep(depth_of(dir_path.as_str())),
            None => false,
        };
        if do_push {
            let n = children.len();
            let mut j = n;
            proof {
                assert(children@.skip(n as int) =~= Seq::<File>::empty());
                assert(self.dirs@ =~= self.dirs@ + rev_subdir_paths(children@.skip(n as int)));
            }
            while j > 0
                invariant
                    n == children@.len(),
                    j <= n,
                    self.count == old(self).count,
                    self.processed == old(self).processed,
                    self.options == old(self).options,
                    self.files@ == old(self).files@,
                    self.dirs@ == old(self).dirs@ + rev_subdir_paths(children@.skip(j as int)),
                decreases j,
            {
                j = j - 1;
                proof {
                    assert(children@.skip(j as int).skip(1) =~= children@.skip(j as int + 1));
                    assert(children@.skip(j as int)[0] == children@[j as int]);
                }
                let child = &children[j];
                if child.is_directory() {
                    let p = child.path.clone();
                    self.dirs.push(p);
                    proof {
                        assert(self.dirs@ =~= old(self).dirs@ + rev_subdir_paths(
                            children@.skip(j as int),
                        ));
                    }
                } else {
                    proof {
                        assert(self.dirs@ =~= old(self).dirs@ + rev_subdir_paths(
                            children@.skip(j as int),
                        ));
                    }
                }
            }
            proof {
                assert(children@.skip(0) =~= children@);
            }
        } else {
            proof {
                assert(self.dirs@ =~= self.dirs@ + Seq::<String>::empty());
            }
        }
        let r = self.processed > 1;
        self.processed = self.processed + 1;
        r
    }
}

/// The emit rule for separators: a blank line precedes every expansion
/// except the first — and even the first, when a standalone-files batch
/// was printed before it, which is what the starting value of `first`
/// records. The flag is spent by the first call.
pub fn take_separator(first: &mut bool) -> (r: bool)
    ensures
        r == !*old(first),
        *final(first) == false,
{
    let r = !*first;
    *first = false;
    r
}

} // verus!
