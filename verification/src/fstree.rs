use vstd::prelude::*;

verus! {

/// A snapshot of one watched filesystem subtree, reduced to what the
/// staleness checks read: regular files and their modification times.
/// `mtime` is an opaque timestamp supplied by the caller; only its order
/// matters, and comparison against a stamp is strictly-greater-than.
pub enum FsTree {
    File { mtime: u64 },
    Dir { entries: Vec<FsTree> },
}

impl FsTree {
    /// Does this subtree hold a file whose modification time is strictly
    /// greater than `stamp`?
    pub open spec fn has_newer_than(self, stamp: u64) -> bool
        decreases self,
    {
        match self {
            FsTree::File { mtime } => mtime > stamp,
            FsTree::Dir { entries } => seq_any_newer(entries@, stamp),
        }
    }
}

/// Does any subtree of the forest hold a file newer than `stamp`?
pub open spec fn forest_has_newer_than(forest: Seq<&FsTree>, stamp: u64) -> bool {
    exists|i: int| 0 <= i < forest.len() && #[trigger] forest[i].has_newer_than(stamp)
}

/// The Dir arm of `FsTree::has_newer_than`: does some subtree in the
/// sequence hold a file newer than `stamp`?
pub open spec fn seq_any_newer(s: Seq<FsTree>, stamp: u64) -> bool
    decreases s,
{
    s.len() > 0 && (s.last().has_newer_than(stamp) || seq_any_newer(s.drop_last(), stamp))
}

/// The same judgement as an existential over the sequence.
pub open spec fn seq_has_newer_than(s: Seq<FsTree>, stamp: u64) -> bool {
    exists|i: int| 0 <= i < s.len() && #[trigger] s[i].has_newer_than(stamp)
}

/// `seq_any_newer` is that existential.
pub proof fn lemma_seq_any_newer_iff(s: Seq<FsTree>, stamp: u64)
    ensures
        seq_any_newer(s, stamp) == seq_has_newer_than(s, stamp),
    decreases s.len(),
{
    if s.len() > 0 {
        lemma_seq_any_newer_iff(s.drop_last(), stamp);
        if s.last().has_newer_than(stamp) {
            assert(s[s.len() - 1].has_newer_than(stamp));
        }
        if seq_has_newer_than(s.drop_last(), stamp) {
            let i = choose|i: int|
                0 <= i < s.drop_last().len() && #[trigger] s.drop_last()[i].has_newer_than(stamp);
            assert(s[i].has_newer_than(stamp));
        }
        if seq_has_newer_than(s, stamp) && !s.last().has_newer_than(stamp) {
            let i = choose|i: int| 0 <= i < s.len() && #[trigger] s[i].has_newer_than(stamp);
            assert(i < s.len() - 1);
            assert(s.drop_last()[i].has_newer_than(stamp));
        }
    }
}

/// Number of nodes of a subtree; the measure of the walk below.
pub open spec fn tree_size(t: FsTree) -> nat
    decreases t,
{
    match t {
        FsTree::File { .. } => 1,
        FsTree::Dir { entries } => 1 + seq_tree_size(entries@),
    }
}

/// Total node count of a sequence of subtrees.
pub open spec fn seq_tree_size(s: Seq<FsTree>) -> nat
    decreases s,
{
    if s.len() == 0 {
        0
    } else {
        seq_tree_size(s.drop_last()) + tree_size(s.last())
    }
}

/// Total node count of the walk's stack.
pub open spec fn stack_size(s: Seq<&FsTree>) -> nat
    decreases s,
{
    if s.len() == 0 {
        0
    } else {
        stack_size(s.drop_last()) + tree_size(*s.last())
    }
}

/// A probe of one path that may hold a regular file: `None` when no regular
/// file is there, otherwise its modification time. A missing optional input
/// is thereby excluded from a staleness check rather than making it stale.
pub open spec fn spec_file_newer_than(file: Option<u64>, stamp: Option<u64>) -> bool {
    match file {
        None => false,
        Some(f) => match stamp {
            None => true,
            Some(s) => f > s,
        },
    }
}

/// Is the probed file newer than the probed stamp? A missing file is never
/// newer; any file is newer than a missing stamp.
pub fn file_newer_than(file: &Option<u64>, stamp: &Option<u64>) -> (r: bool)
    ensures
        r == spec_file_newer_than(*file, *stamp),
{
    match file {
        None => false,
        Some(f) => match stamp {
            None => true,
            Some(s) => *f > *s,
        },
    }
}

/// What the walk below decides: stale when the watched directory exists, and
/// either the stamp is absent or some file under the directory is newer.
pub open spec fn spec_dir_has_newer_than(dir: Option<&FsTree>, stamp: Option<u64>) -> bool {
    match dir {
        None => false,
        Some(t) => match stamp {
            None => true,
            Some(s) => t.has_newer_than(s),
        },
    }
}

/// Walks the snapshot of a watched directory with an explicit stack and
/// reports whether any file in it is strictly newer than the stamp,
/// returning at the first qualifying file. A missing directory never
/// qualifies; a missing stamp always does.
#[verifier::loop_isolation(false)]
pub fn dir_has_newer_than(dir: Option<&FsTree>, stamp: Option<u64>) -> (r: bool)
    ensures
        r == spec_dir_has_newer_than(dir, stamp),
{
    let root = match dir {
        None => {
            return false;
        },
        Some(t) => t,
    };
    let s = match stamp {
        None => {
            return true;
        },
        Some(s) => s,
    };
    let mut stack: Vec<&FsTree> = Vec::new();
    stack.push(root);
    proof {
        assert(stack@[0] == root);
        if root.has_newer_than(s) {
            assert(stack@[0].has_newer_than(s));
        }
        if forest_has_newer_than(stack@, s) {
            let i = choose|i: int|
                0 <= i < stack@.len() && #[trigger] stack@[i].has_newer_than(s);
            assert(i == 0);
        }
    }
    while stack.len() > 0
        invariant
            root.has_newer_than(s) == forest_has_newer_than(stack@, s),
        decreases stack_size(stack@),
    {
        let ghost prev = stack@;
        let node = stack.pop().unwrap();
        proof {
            assert(prev.drop_last() =~= stack@);
            assert(stack_size(prev) == stack_size(stack@) + tree_size(*node));
            assert(prev[prev.len() - 1] == node);
        }
        match node {
            FsTree::File { mtime } => {
                if *mtime > s {
                    proof {
                        assert(prev[prev.len() - 1].has_newer_than(s));
                    }
                    return true;
                }
                proof {
                    lemma_forest_drop_dead(prev, s);
                }
            },
            FsTree::Dir { entries } => {
                proof {
                    lemma_forest_drop_dir(prev, s);
                }
                let ghost base = stack@;
                let mut j: usize = 0;
                while j < entries.len()
                    invariant
                        j <= entries.len(),
                        stack@.len() == base.len() + j,
                        forall|k: int| 0 <= k < base.len() ==> stack@[k] == base[k],
                        forall|k: int| 0 <= k < j ==> stack@[base.len() + k] == &entries[k as int],
                        stack_size(stack@) == stack_size(base) + seq_tree_size(
                            entries@.take(j as int),
                        ),
                    decreases entries.len() - j,
                {
                    let ghost before = stack@;
                    stack.push(&entries[j]);
                    proof {
                        assert(stack@.drop_last() =~= before);
                        assert(entries@.take(j + 1 as int).drop_last() =~= entries@.take(
                            j as int,
                        ));
                        assert(entries@.take(j + 1 as int).last() == entries@[j as int]);
                    }
                    j += 1;
                }
                proof {
                    assert(entries@.take(entries@.len() as int) =~= entries@);
                    assert(stack_size(stack@) == stack_size(base) + seq_tree_size(entries@));
                    assert(tree_size(*node) == 1 + seq_tree_size(entries@));
                    assert(node.has_newer_than(s) == seq_any_newer(entries@, s));
                    lemma_seq_any_newer_iff(entries@, s);
                    lemma_forest_after_expand(base, entries@, stack@, s);
                }
            },
        }
    }
    false
}

/// Removing a file that is not newer than the stamp from the top of the
/// stack leaves the forest verdict unchanged.
proof fn lemma_forest_drop_dead(forest: Seq<&FsTree>, stamp: u64)
    requires
        forest.len() > 0,
        !forest[forest.len() - 1].has_newer_than(stamp),
    ensures
        forest_has_newer_than(forest, stamp) == forest_has_newer_than(
            forest.drop_last(),
            stamp,
        ),
{
    if forest_has_newer_than(forest, stamp) {
        let i = choose|i: int|
            0 <= i < forest.len() && #[trigger] forest[i].has_newer_than(stamp);
        assert(i < forest.len() - 1);
        assert(forest.drop_last()[i].has_newer_than(stamp));
    }
    if forest_has_newer_than(forest.drop_last(), stamp) {
        let i = choose|i: int|
            0 <= i < forest.drop_last().len() && #[trigger] forest.drop_last()[i].has_newer_than(
                stamp,
            );
        assert(forest[i].has_newer_than(stamp));
    }
}

/// Same statement for a directory on top of the stack: its own verdict is
/// the verdict over its entries, so dropping it and judging the rest plus
/// its entries is the same judgement.
proof fn lemma_forest_drop_dir(forest: Seq<&FsTree>, stamp: u64)
    requires
        forest.len() > 0,
    ensures
        forest_has_newer_than(forest, stamp) == (forest_has_newer_than(
            forest.drop_last(),
            stamp,
        ) || forest[forest.len() - 1].has_newer_than(stamp)),
{
    if forest_has_newer_than(forest, stamp) {
        let i = choose|i: int|
            0 <= i < forest.len() && #[trigger] forest[i].has_newer_than(stamp);
        if i < forest.len() - 1 {
            assert(forest.drop_last()[i].has_newer_than(stamp));
        }
    }
    if forest_has_newer_than(forest.drop_last(), stamp) {
        let i = choose|i: int|
            0 <= i < forest.drop_last().len() && #[trigger] forest.drop_last()[i].has_newer_than(
                stamp,
            );
        assert(forest[i].has_newer_than(stamp));
    }
}

/// After a directory node is replaced on the stack by its entries, the
/// forest verdict is unchanged.
proof fn lemma_forest_after_expand(
    base: Seq<&FsTree>,
    entries: Seq<FsTree>,
    expanded: Seq<&FsTree>,
    stamp: u64,
)
    requires
        expanded.len() == base.len() + entries.len(),
        forall|k: int| 0 <= k < base.len() ==> expanded[k] == base[k],
        forall|k: int| 0 <= k < entries.len() ==> *#[trigger] expanded[base.len() + k]
            == entries[k],
    ensures
        forest_has_newer_than(expanded, stamp) == (forest_has_newer_than(base, stamp)
            || seq_has_newer_than(entries, stamp)),
{
    if forest_has_newer_than(expanded, stamp) {
        let i = choose|i: int|
            0 <= i < expanded.len() && #[trigger] expanded[i].has_newer_than(stamp);
        if i < base.len() {
            assert(base[i].has_newer_than(stamp));
        } else {
            let k = i - base.len();
            assert(expanded[base.len() + k] == expanded[i]);
            assert(entries[k].has_newer_than(stamp));
        }
    }
    if forest_has_newer_than(base, stamp) {
        let i = choose|i: int| 0 <= i < base.len() && #[trigger] base[i].has_newer_than(stamp);
        assert(expanded[i].has_newer_than(stamp));
    }
    if seq_has_newer_than(entries, stamp) {
        let i = choose|i: int|
            0 <= i < entries.len() && #[trigger] entries[i].has_newer_than(stamp);
        assert(*expanded[base.len() + i] == entries[i]);
        assert(expanded[base.len() + i].has_newer_than(stamp));
    }
}

} // verus!
