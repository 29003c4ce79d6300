//! The flattened tree: a sequence of lines, each with its depth, in which a
//! directory is followed at once by all that lies below it.

use vstd::prelude::*;
use crate::app::state::TreeEntry;

verus! {

/// Line `i + 1` lies at most one level below line `i`, and lies below it
/// only where line `i` is a directory.
pub open spec fn step_fits(s: Seq<TreeEntry>, i: int) -> bool {
    &&& s[i + 1].depth <= s[i].depth + 1
    &&& s[i + 1].depth > s[i].depth ==> s[i].entry.is_dir()
}

/// `s` is a forest flattened in pre-order whose roots lie at depth `base`.
pub open spec fn preorder(s: Seq<TreeEntry>, base: nat) -> bool {
    &&& forall|i: int| 0 <= i < s.len() ==> (#[trigger] s[i]).depth >= base
    &&& s.len() > 0 ==> s[0].depth == base
    &&& forall|i: int| 0 <= i < s.len() - 1 ==> #[trigger] step_fits(s, i)
}

/// Every line of `s` lies at depth 0.
pub open spec fn is_flat(s: Seq<TreeEntry>) -> bool {
    forall|i: int| 0 <= i < s.len() ==> (#[trigger] s[i]).depth == 0
}

/// The first position from `from` on whose line lies at `depth` or above
/// it, or the length of `s` where there is none.
pub open spec fn run_end(s: Seq<TreeEntry>, depth: int, from: int) -> int
    decreases s.len() - from,
{
    if from >= s.len() {
        s.len() as int
    } else if s[from].depth <= depth {
        from
    } else {
        run_end(s, depth, from + 1)
    }
}

/// Where the block of lines below line `i` ends: the lines from `i + 1` up
/// to, and without, this position are the descendants of line `i`.
pub open spec fn block_end(s: Seq<TreeEntry>, i: int) -> int {
    run_end(s, s[i].depth as int, i + 1)
}

/// Line `i` shows what lies below it: the next line is deeper.
pub open spec fn is_unfolded(s: Seq<TreeEntry>, i: int) -> bool {
    i + 1 < s.len() && s[i + 1].depth > s[i].depth
}

/// `s` without the descendants of line `i`.
pub open spec fn collapse(s: Seq<TreeEntry>, i: int) -> Seq<TreeEntry> {
    s.subrange(0, i + 1) + s.subrange(block_end(s, i), s.len() as int)
}

/// `s` with the lines `sub` put in directly behind line `i`.
pub open spec fn expand(s: Seq<TreeEntry>, i: int, sub: Seq<TreeEntry>) -> Seq<TreeEntry> {
    s.subrange(0, i + 1) + sub + s.subrange(i + 1, s.len() as int)
}

/// What `run_end` finds: all lines before it are deeper, and the line at it,
/// if there is one, is not.
pub proof fn lemma_run_end(s: Seq<TreeEntry>, depth: int, from: int)
    requires
        0 <= from <= s.len(),
    ensures
        from <= run_end(s, depth, from) <= s.len(),
        forall|j: int| from <= j < run_end(s, depth, from) ==> (#[trigger] s[j]).depth > depth,
        run_end(s, depth, from) < s.len() ==> s[run_end(s, depth, from)].depth <= depth,
    decreases s.len() - from,
{
    if from < s.len() && s[from].depth > depth {
        lemma_run_end(s, depth, from + 1);
    }
}

/// A position is the end of the run if the lines before it are deeper and
/// the line at it, if there is one, is not.
pub proof fn lemma_run_end_is(s: Seq<TreeEntry>, depth: int, from: int, end: int)
    requires
        0 <= from <= end <= s.len(),
        forall|j: int| from <= j < end ==> (#[trigger] s[j]).depth > depth,
        end < s.len() ==> s[end].depth <= depth,
    ensures
        run_end(s, depth, from) == end,
    decreases end - from,
{
    if from < end {
        lemma_run_end_is(s, depth, from + 1, end);
    }
}

/// Finds where the block of lines below line `i` ends.
pub fn subtree_end(nodes: &Vec<TreeEntry>, i: usize) -> (end: usize)
    requires
        i < nodes.len(),
    ensures
        end == block_end(nodes@, i as int),
        i < end <= nodes.len(),
        forall|j: int| i < j < end ==> (#[trigger] nodes@[j]).depth > nodes@[i as int].depth,
        end < nodes.len() ==> nodes@[end as int].depth <= nodes@[i as int].depth,
{
    let depth = nodes[i].depth;
    let mut end: usize = i + 1;
    while end < nodes.len() && nodes[end].depth > depth
        invariant
            i < end <= nodes.len(),
            depth == nodes@[i as int].depth,
            run_end(nodes@, depth as int, end as int) == block_end(nodes@, i as int),
        decreases nodes.len() - end,
    {
        end += 1;
    }
    proof {
        lemma_run_end(nodes@, depth as int, i as int + 1);
    }
    end
}

/// Folding a directory keeps the listing a flattened forest.
pub proof fn lemma_collapse_preorder(s: Seq<TreeEntry>, base: nat, i: int)
    requires
        preorder(s, base),
        0 <= i < s.len(),
    ensures
        preorder(collapse(s, i), base),
        collapse(s, i).len() == s.len() - (block_end(s, i) - (i + 1)),
        collapse(s, i).len() > i,
        collapse(s, i)[i] == s[i],
{
    let end = block_end(s, i);
    let r = collapse(s, i);
    lemma_run_end(s, s[i].depth as int, i + 1);
    assert forall|k: int| 0 <= k < r.len() - 1 implies #[trigger] step_fits(r, k) by {
        if k < i {
            assert(step_fits(s, k));
        } else if k == i {
        } else {
            assert(step_fits(s, k + (end - (i + 1))));
        }
    }
}

/// Unfolding a folded directory keeps the listing a flattened forest, where
/// what is put in is one with roots just below the directory.
pub proof fn lemma_expand_preorder(s: Seq<TreeEntry>, base: nat, i: int, sub: Seq<TreeEntry>)
    requires
        preorder(s, base),
        0 <= i < s.len(),
        s[i].entry.is_dir(),
        !is_unfolded(s, i),
        preorder(sub, (s[i].depth + 1) as nat),
    ensures
        preorder(expand(s, i, sub), base),
        expand(s, i, sub).len() == s.len() + sub.len(),
        expand(s, i, sub)[i] == s[i],
{
    let r = expand(s, i, sub);
    assert forall|k: int| 0 <= k < r.len() - 1 implies #[trigger] step_fits(r, k) by {
        if k < i {
            assert(step_fits(s, k));
        } else if k < i + sub.len() {
            if k > i {
                assert(step_fits(sub, k - (i + 1)));
            }
            if k + 1 == i + 1 + sub.len() {
                // the line behind what was put in is the old line `i + 1`
                assert(r[k + 1] == s[i + 1]);
                if sub.len() == 0 {
                    assert(step_fits(s, i));
                }
            }
        } else {
            assert(step_fits(s, k - sub.len()));
        }
    }
}

/// Unfolding a folded directory and folding it again gives the listing back,
/// whatever was put in, as long as all of it lies deeper than the directory.
pub proof fn lemma_expand_collapse(s: Seq<TreeEntry>, i: int, sub: Seq<TreeEntry>)
    requires
        0 <= i < s.len(),
        !is_unfolded(s, i),
        forall|k: int| 0 <= k < sub.len() ==> (#[trigger] sub[k]).depth > s[i].depth,
    ensures
        block_end(expand(s, i, sub), i) == i + 1 + sub.len(),
        collapse(expand(s, i, sub), i) == s,
{
    let r = expand(s, i, sub);
    let end = i + 1 + sub.len();
    assert forall|j: int| i + 1 <= j < end implies (#[trigger] r[j]).depth > s[i].depth by {
        assert(r[j] == sub[j - (i + 1)]);
    }
    if end < r.len() {
        assert(r[end] == s[i + 1]);
    }
    lemma_run_end_is(r, s[i].depth as int, i + 1, end);
    assert(collapse(r, i) =~= s);
}

/// A flattened forest stays one when a further root is put behind it,
/// followed by what lies below that root.
pub proof fn lemma_preorder_append(
    front: Seq<TreeEntry>,
    root: TreeEntry,
    below: Seq<TreeEntry>,
    base: nat,
)
    requires
        preorder(front, base),
        root.depth == base,
        preorder(below, base + 1),
        below.len() > 0 ==> root.entry.is_dir(),
    ensures
        preorder(front + seq![root] + below, base),
{
    let r = front + seq![root] + below;
    let n = front.len() as int;
    assert forall|k: int| 0 <= k < r.len() - 1 implies #[trigger] step_fits(r, k) by {
        if k < n - 1 {
            assert(step_fits(front, k));
        } else if k == n - 1 {
            assert(r[k] == front[k]);
        } else if k == n {
            assert(r[k + 1] == below[0]);
        } else {
            assert(step_fits(below, k - (n + 1)));
            assert(r[k] == below[k - (n + 1)]);
            assert(r[k + 1] == below[k - n]);
        }
    }
    assert forall|k: int| 0 <= k < r.len() implies (#[trigger] r[k]).depth >= base by {
        if k < n {
            assert(r[k] == front[k]);
        } else if k > n {
            assert(r[k] == below[k - (n + 1)]);
        }
    }
}

} // verus!
