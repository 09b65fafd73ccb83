//! Depth of a directory, recomputed from its path every time it is
//! expanded: the number of path components that are not the
//! current-directory segment `.` (a leading `/` counts as the root
//! component), plus one. Depth is never stored on the stack; it is a
//! function of the path alone.

use vstd::prelude::*;

verus! {

/// A slash-separated segment counts as a component when it is non-empty
/// and is not the current-directory segment ".".
pub open spec fn counted_segment(seg: Seq<char>) -> bool {
    seg.len() > 0 && seg != seq!['.']
}

/// Left-to-right scan over the path text: the number of components already
/// closed by a '/', and the still-open trailing segment.
pub open spec fn scan(s: Seq<char>) -> (nat, Seq<char>)
    decreases s.len(),
{
    if s.len() == 0 {
        (0nat, Seq::empty())
    } else {
        let prior = scan(s.drop_last());
        if s.last() == '/' {
            ((prior.0 + if counted_segment(prior.1) { 1nat } else { 0nat }), Seq::empty())
        } else {
            (prior.0, prior.1.push(s.last()))
        }
    }
}

/// Number of non-"." components of a path.
pub open spec fn spec_component_count(s: Seq<char>) -> nat {
    let sc = scan(s);
    sc.0 + if counted_segment(sc.1) { 1nat } else { 0nat }
}

/// Depth of a directory at path `s`: its root component when absolute,
/// plus its non-"." components, plus one.
pub open spec fn spec_depth_of(s: Seq<char>) -> nat {
    (if s.len() > 0 && s[0] == '/' { 1nat } else { 0nat }) + spec_component_count(s) + 1
}

/// The scan never counts more than one component, pending or closed, per
/// character read.
proof fn lemma_scan_bounds(s: Seq<char>)
    ensures
        scan(s).0 + scan(s).1.len() <= s.len(),
    decreases s.len(),
{
    if s.len() > 0 {
        lemma_scan_bounds(s.drop_last());
    }
}

/// Depth is a function of the path text alone: expanding the same
/// directory path twice, from any two entry points, yields the same depth.
pub proof fn lemma_depth_path_based(p1: Seq<char>, p2: Seq<char>)
    requires
        p1 == p2,
    ensures
        spec_depth_of(p1) == spec_depth_of(p2),
{
}

/// Appending slash-free text leaves the closed components alone and only
/// grows the pending segment.
proof fn lemma_scan_append_no_slash(s: Seq<char>, tail: Seq<char>)
    requires
        forall|i: int| 0 <= i < tail.len() ==> tail[i] != '/',
    ensures
        scan(s + tail).0 == scan(s).0,
        scan(s + tail).1 == scan(s).1 + tail,
    decreases tail.len(),
{
    if tail.len() == 0 {
        assert(s + tail =~= s);
        assert(scan(s).1 + tail =~= scan(s).1);
    } else {
        lemma_scan_append_no_slash(s, tail.drop_last());
        assert((s + tail).drop_last() =~= s + tail.drop_last());
        assert((s + tail).last() == tail.last());
        assert(scan(s).1 + tail =~= (scan(s).1 + tail.drop_last()).push(tail.last()));
    }
}

/// A child found inside a directory sits exactly one level deeper: joining
/// a directory path with `/` and a plain entry name (non-empty, slash-free
/// and not ".") raises the depth by exactly one. This is why a depth limit
/// of D stops every push from a directory at depth D while still pushing
/// from shallower ones.
pub proof fn lemma_child_depth(parent: Seq<char>, name: Seq<char>)
    requires
        parent.len() > 0,
        name.len() > 0,
        name != seq!['.'],
        forall|i: int| 0 <= i < name.len() ==> name[i] != '/',
    ensures
        spec_depth_of(parent + seq!['/'] + name) == spec_depth_of(parent) + 1,
{
    let closed = parent + seq!['/'];
    assert(closed.drop_last() =~= parent);
    assert(closed.last() == '/');
    lemma_scan_append_no_slash(closed, name);
    assert(scan(closed + name).1 =~= name);
    assert((parent + seq!['/'] + name)[0] == parent[0]);
}

/// Computes the depth of the directory at `path`.
pub fn depth_of(path: &str) -> (r: usize)
    requires
        path@.len() + 2 <= usize::MAX,
    ensures
        r == spec_depth_of(path@),
{
    let n = path.unicode_len();
    let mut i: usize = 0;
    let mut cnt: usize = 0;
    let mut seg_len: usize = 0;
    let mut seg_dot: bool = false;
    while i < n
        invariant
            n == path@.len(),
            i <= n,
            path@.len() + 2 <= usize::MAX,
            cnt == scan(path@.take(i as int)).0,
            seg_len == scan(path@.take(i as int)).1.len(),
            seg_dot == (scan(path@.take(i as int)).1 == seq!['.']),
        decreases n - i,
    {
        proof {
            lemma_scan_bounds(path@.take(i as int));
            assert(path@.take(i + 1 as int).drop_last() =~= path@.take(i as int));
            assert(path@.take(i + 1 as int).last() == path@[i as int]);
        }
        let ghost cur = scan(path@.take(i as int)).1;
        let c = path.get_char(i);
        if c == '/' {
            if seg_len > 0 && !seg_dot {
                cnt = cnt + 1;
            }
            seg_len = 0;
            seg_dot = false;
        } else {
            if seg_len == 0 {
                seg_dot = c == '.';
                proof {
                    if c == '.' {
                        assert(cur.push(c) =~= seq!['.']);
                    } else {
                        assert(cur.push(c)[0] != '.');
                        assert(seq!['.'][0] == '.');
                    }
                }
            } else {
                seg_dot = false;
                proof {
                    assert(cur.push(c).len() != seq!['.'].len());
                }
            }
            seg_len = seg_len + 1;
        }
        i = i + 1;
    }
    proof {
        assert(path@.take(n as int) =~= path@);
        lemma_scan_bounds(path@);
    }
    let mut depth: usize = cnt;
    if seg_len > 0 && !seg_dot {
        depth = depth + 1;
    }
    if n > 0 && path.get_char(0) == '/' {
        depth = depth + 1;
    }
    depth + 1
}

} // verus!
