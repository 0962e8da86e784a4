use vstd::prelude::*;

verus! {

/// One regular file of a directory tree, by its path relative to the
/// tree's root, with its content.
pub struct FileEntry {
    pub path: String,
    pub data: Vec<u8>,
}

/// A directory tree flattened to its regular files. Well-formed when no
/// path occurs twice.
pub struct DirListing {
    pub files: Vec<FileEntry>,
}

/// The tree as a map from path to content.
pub open spec fn spec_listing_map(files: Seq<FileEntry>) -> Map<Seq<char>, Seq<u8>>
    decreases files.len(),
{
    if files.len() == 0 {
        Map::empty()
    } else {
        spec_listing_map(files.drop_last()).insert(files.last().path@, files.last().data@)
    }
}

impl DirListing {
    /// The listing as a map.
    pub open spec fn view(&self) -> Map<Seq<char>, Seq<u8>> {
        spec_listing_map(self.files@)
    }

    /// No path occurs twice.
    pub open spec fn wf(&self) -> bool {
        forall|i: int, j: int| 0 <= i < j < self.files@.len() ==> self.files@[i].path@ != self
            .files@[j].path@
    }
}

/// A listing's map holds exactly its paths, each with that file's content.
pub proof fn lemma_listing_map(files: Seq<FileEntry>)
    ensures
        forall|p: Seq<char>| #[trigger] spec_listing_map(files).contains_key(p) <==> (exists|
        i: int| 0 <= i < files.len() && #[trigger] files[i].path@ == p),
        (forall|i: int, j: int| 0 <= i < j < files.len() ==> files[i].path@ != files[j].path@)
            ==> forall|i: int| 0 <= i < files.len() ==> spec_listing_map(files)[(
        #[trigger] files[i]).path@] == files[i].data@,
    decreases files.len(),
{
    if files.len() > 0 {
        lemma_listing_map(files.drop_last());
        let head = files.drop_last();
        let last = files.last();
        assert(spec_listing_map(files) == spec_listing_map(head).insert(last.path@, last.data@));
        assert(forall|i: int| 0 <= i < head.len() ==> #[trigger] head[i] == files[i]);
        assert forall|p: Seq<char>| #[trigger] spec_listing_map(files).contains_key(p) implies (
        exists|i: int| 0 <= i < files.len() && #[trigger] files[i].path@ == p) by {
            if p == last.path@ {
                assert(files[files.len() - 1].path@ == p);
            } else {
                let i = choose|i: int| 0 <= i < head.len() && #[trigger] head[i].path@ == p;
                assert(files[i].path@ == p);
            }
        }
        assert forall|p: Seq<char>|
            (exists|i: int| 0 <= i < files.len() && #[trigger] files[i].path@ == p) implies
            #[trigger] spec_listing_map(files).contains_key(p) by {
            let i = choose|i: int| 0 <= i < files.len() && #[trigger] files[i].path@ == p;
            if i < files.len() - 1 {
                assert(head[i].path@ == p);
            }
        }
        if forall|i: int, j: int| 0 <= i < j < files.len() ==> files[i].path@ != files[j].path@ {
            assert forall|i: int| 0 <= i < files.len() implies spec_listing_map(files)[(
            #[trigger] files[i]).path@] == files[i].data@ by {
                if i < files.len() - 1 {
                    assert(head[i].path@ == files[i].path@ && head[i].data@ == files[i].data@);
                    assert(files[i].path@ != last.path@);
                }
            }
        }
    }
}

/// One mutation of the destination tree.
pub enum MirrorAction {
    /// Delete the entry at this path.
    Remove { path: String },
    /// Write this content at this path.
    Write { path: String, data: Vec<u8> },
}

/// One action applied to a tree.
pub open spec fn spec_apply_one(m: Map<Seq<char>, Seq<u8>>, a: MirrorAction) -> Map<
    Seq<char>,
    Seq<u8>,
> {
    match a {
        MirrorAction::Remove { path } => m.remove(path@),
        MirrorAction::Write { path, data } => m.insert(path@, data@),
    }
}

/// A plan applied to a tree, in order.
pub open spec fn spec_apply(m: Map<Seq<char>, Seq<u8>>, actions: Seq<MirrorAction>) -> Map<
    Seq<char>,
    Seq<u8>,
>
    decreases actions.len(),
{
    if actions.len() == 0 {
        m
    } else {
        spec_apply(spec_apply_one(m, actions[0]), actions.drop_first())
    }
}

/// Appending one action applies it last.
pub proof fn lemma_apply_push(m: Map<Seq<char>, Seq<u8>>, actions: Seq<MirrorAction>, a: MirrorAction)
    ensures
        spec_apply(m, actions.push(a)) == spec_apply_one(spec_apply(m, actions), a),
    decreases actions.len(),
{
    let s = actions.push(a);
    assert(spec_apply(m, s) == spec_apply(spec_apply_one(m, s[0]), s.drop_first()));
    if actions.len() == 0 {
        assert(s[0] == a);
        assert(s.drop_first() =~= Seq::<MirrorAction>::empty());
        assert(spec_apply(spec_apply_one(m, a), s.drop_first()) == spec_apply_one(m, a));
        assert(spec_apply(m, actions) == m);
    } else {
        assert(s[0] == actions[0]);
        assert(s.drop_first() =~= actions.drop_first().push(a));
        lemma_apply_push(spec_apply_one(m, actions[0]), actions.drop_first(), a);
        assert(spec_apply(m, actions) == spec_apply(
            spec_apply_one(m, actions[0]),
            actions.drop_first(),
        ));
    }
}

/// An owned copy of a content buffer.
fn copy_bytes(v: &Vec<u8>) -> (r: Vec<u8>)
    ensures
        r@ == v@,
{
    let mut out: Vec<u8> = Vec::new();
    let mut i: usize = 0;
    while i < v.len()
        invariant
            i <= v@.len(),
            out@ =~= v@.take(i as int),
        decreases v.len() - i,
    {
        out.push(v[i]);
        proof {
            assert(out@ =~= v@.take(i + 1 as int));
        }
        i += 1;
    }
    proof {
        assert(v@.take(v@.len() as int) =~= v@);
    }
    out
}

/// Byte-for-byte content equality.
fn bytes_eq(a: &Vec<u8>, b: &Vec<u8>) -> (r: bool)
    ensures
        r == (a@ == b@),
{
    if a.len() != b.len() {
        proof {
            assert(a@.len() != b@.len());
        }
        return false;
    }
    let mut i: usize = 0;
    while i < a.len()
        invariant
            i <= a@.len(),
            a@.len() == b@.len(),
            forall|k: int| 0 <= k < i ==> a@[k] == b@[k],
        decreases a.len() - i,
    {
        if a[i] != b[i] {
            return false;
        }
        i += 1;
    }
    proof {
        assert(a@ =~= b@);
    }
    true
}

/// The content at a path of a listing, if the path is there.
#[verifier::loop_isolation(false)]
fn lookup<'a>(listing: &'a DirListing, path: &String) -> (r: Option<&'a Vec<u8>>)
    requires
        listing.wf(),
    ensures
        match r {
            Some(v) => listing@.contains_key(path@) && listing@[path@] == v@,
            None => !listing@.contains_key(path@),
        },
{
    proof {
        lemma_listing_map(listing.files@);
    }
    let mut i: usize = 0;
    while i < listing.files.len()
        invariant
            i <= listing.files@.len(),
            forall|k: int| 0 <= k < i ==> (#[trigger] listing.files@[k].path@) != path@,
        decreases listing.files.len() - i,
    {
        if listing.files[i].path == *path {
            return Some(&listing.files[i].data);
        }
        i += 1;
    }
    proof {
        if listing@.contains_key(path@) {
            let k = choose|k: int|
                0 <= k < listing.files@.len() && #[trigger] listing.files@[k].path@ == path@;
        }
    }
    None
}

/// A plan action the mirror copy is allowed to take: a removal only of a
/// destination entry absent from the source, a write only of a source file
/// the destination does not already hold byte for byte.
pub open spec fn spec_action_sound(
    sm: Map<Seq<char>, Seq<u8>>,
    dm: Map<Seq<char>, Seq<u8>>,
    a: MirrorAction,
) -> bool {
    match a {
        MirrorAction::Remove { path } => dm.contains_key(path@) && !sm.contains_key(path@),
        MirrorAction::Write { path, data } => sm.contains_key(path@) && sm[path@] == data@ && !(
        dm.contains_key(path@) && dm[path@] == data@),
    }
}

/// Computes the mirror plan: delete every destination entry whose path is
/// absent from the source, then write every source file whose content is
/// absent or differs. Applying the plan to the destination yields exactly
/// the source tree — this is the convergence guarantee of the mirror copy —
/// and nothing already right is touched, so a destination that matches the
/// source gets an empty plan and re-assembly reproduces it byte for byte.
#[verifier::rlimit(100)]
#[verifier::loop_isolation(false)]
pub fn mirror_plan(src: &DirListing, dest: &DirListing) -> (r: Vec<MirrorAction>)
    requires
        src.wf(),
        dest.wf(),
    ensures
        spec_apply(dest@, r@) == src@,
        forall|k: int| 0 <= k < r@.len() ==> spec_action_sound(src@, dest@, #[trigger] r@[k]),
        dest@ == src@ ==> r@.len() == 0,
{
    proof {
        lemma_listing_map(src.files@);
        lemma_listing_map(dest.files@);
    }
    let mut plan: Vec<MirrorAction> = Vec::new();
    let ghost dm = dest@;
    let ghost sm = src@;
    let mut i: usize = 0;
    while i < dest.files.len()
        invariant
            i <= dest.files@.len(),
            forall|p: Seq<char>| #[trigger] spec_apply(dm, plan@).contains_key(p) <==> (
            dm.contains_key(p) && (sm.contains_key(p) || !(exists|k: int|
                0 <= k < i && (#[trigger] dest.files@[k].path@) == p))),
            forall|p: Seq<char>| #[trigger] spec_apply(dm, plan@).contains_key(p)
                ==> spec_apply(dm, plan@)[p] == dm[p],
            forall|k: int| 0 <= k < plan@.len() ==> spec_action_sound(sm, dm, #[trigger] plan@[k]),
        decreases dest.files.len() - i,
    {
        let ghost before = plan@;
        let path_ref = &dest.files[i].path;
        if lookup(src, path_ref).is_none() {
            plan.push(MirrorAction::Remove { path: path_ref.clone() });
            proof {
                assert(plan@ =~= before.push(
                    MirrorAction::Remove { path: dest.files@[i as int].path },
                ));
                lemma_apply_push(
                    dm,
                    before,
                    MirrorAction::Remove { path: dest.files@[i as int].path },
                );
                assert(dest.files@[i as int].path@ == dest.files@[i as int].path@);
                assert(dm.contains_key(dest.files@[i as int].path@));
                assert(spec_action_sound(sm, dm, plan@[plan@.len() - 1]));
            }
        }
        proof {
            assert forall|p: Seq<char>| #[trigger] spec_apply(dm, plan@).contains_key(p) <==> (
            dm.contains_key(p) && (sm.contains_key(p) || !(exists|k: int|
                0 <= k < i + 1 && (#[trigger] dest.files@[k].path@) == p))) by {
                if spec_apply(dm, plan@).contains_key(p) {
                    if exists|k: int| 0 <= k < i + 1 && (#[trigger] dest.files@[k].path@) == p {
                        let k = choose|k: int|
                            0 <= k < i + 1 && (#[trigger] dest.files@[k].path@) == p;
                        if k < i {
                        } else {
                        }
                    }
                }
            }
        }
        i += 1;
    }
    proof {
        assert forall|p: Seq<char>| #[trigger] spec_apply(dm, plan@).contains_key(p) <==> (
        dm.contains_key(p) && sm.contains_key(p)) by {
            if dm.contains_key(p) && !sm.contains_key(p) {
                let k = choose|k: int|
                    0 <= k < dest.files@.len() && #[trigger] dest.files@[k].path@ == p;
            }
        }
    }
    let mut j: usize = 0;
    while j < src.files.len()
        invariant
            j <= src.files@.len(),
            forall|p: Seq<char>| #[trigger] spec_apply(dm, plan@).contains_key(p) <==> ((
            dm.contains_key(p) && sm.contains_key(p)) || (exists|k: int|
                0 <= k < j && (#[trigger] src.files@[k].path@) == p)),
            forall|k: int| 0 <= k < j ==> spec_apply(dm, plan@)[(#[trigger] src.files@[k]).path@]
                == src.files@[k].data@,
            forall|p: Seq<char>| (#[trigger] spec_apply(dm, plan@).contains_key(p) && !(exists|
            k: int| 0 <= k < j && (#[trigger] src.files@[k].path@) == p)) ==> spec_apply(
                dm,
                plan@,
            )[p] == dm[p],
            forall|k: int| 0 <= k < plan@.len() ==> spec_action_sound(sm, dm, #[trigger] plan@[k]),
        decreases src.files.len() - j,
    {
        let ghost before = plan@;
        let ghost p = src.files@[j as int].path@;
        let entry_path = &src.files[j].path;
        let entry_data = &src.files[j].data;
        proof {
            assert(sm.contains_key(p));
            if exists|k: int| 0 <= k < j && (#[trigger] src.files@[k].path@) == p {
                let k = choose|k: int| 0 <= k < j && (#[trigger] src.files@[k].path@) == p;
                assert(false);
            }
        }
        let looked = lookup(dest, entry_path);
        let skip = match looked {
            Some(existing) => bytes_eq(existing, entry_data),
            None => false,
        };
        if !skip {
            let act = MirrorAction::Write {
                path: entry_path.clone(),
                data: copy_bytes(entry_data),
            };
            proof {
                assert(act->Write_path@ == p);
                assert(act->Write_data@ == src.files@[j as int].data@);
            }
            plan.push(act);
            proof {
                assert(plan@ =~= before.push(act));
                lemma_apply_push(dm, before, act);
                assert(spec_apply(dm, plan@) == spec_apply(dm, before).insert(
                    p,
                    src.files@[j as int].data@,
                ));
                assert(sm[p] == src.files@[j as int].data@);
                assert(!(dm.contains_key(p) && dm[p] == act->Write_data@));
                assert(spec_action_sound(sm, dm, plan@[plan@.len() - 1]));
            }
        } else {
            proof {
                assert(looked matches Some(v) && dm[p] == v@ && v@ == src.files@[
                    j as int].data@);
                assert(dm.contains_key(p));
                assert(spec_apply(dm, plan@).contains_key(p));
                assert(spec_apply(dm, plan@)[p] == dm[p]);
                assert(spec_apply(dm, plan@)[p] == src.files@[j as int].data@);
            }
        }
        proof {
            assert forall|p: Seq<char>| #[trigger] spec_apply(dm, plan@).contains_key(p) <==> ((
            dm.contains_key(p) && sm.contains_key(p)) || (exists|k: int|
                0 <= k < j + 1 && (#[trigger] src.files@[k].path@) == p)) by {
                if spec_apply(dm, plan@).contains_key(p) {
                    if exists|k: int| 0 <= k < j + 1 && (#[trigger] src.files@[k].path@) == p {
                        let k = choose|k: int|
                            0 <= k < j + 1 && (#[trigger] src.files@[k].path@) == p;
                    }
                }
                if sm.contains_key(p) || (exists|k: int|
                    0 <= k < j + 1 && (#[trigger] src.files@[k].path@) == p) {
                }
            }
        }
        j += 1;
    }
    proof {
        assert(spec_apply(dm, plan@) =~= sm) by {
            assert forall|p: Seq<char>| #[trigger] spec_apply(dm, plan@).contains_key(p) <==>
                sm.contains_key(p) by {
                if sm.contains_key(p) {
                    let k = choose|k: int|
                        0 <= k < src.files@.len() && #[trigger] src.files@[k].path@ == p;
                }
                if spec_apply(dm, plan@).contains_key(p) && !(dm.contains_key(p)
                    && sm.contains_key(p)) {
                    let k = choose|k: int|
                        0 <= k < src.files@.len() && (#[trigger] src.files@[k].path@) == p;
                }
            }
            assert forall|p: Seq<char>| sm.contains_key(p) implies spec_apply(dm, plan@)[p]
                == sm[p] by {
                let k = choose|k: int|
                    0 <= k < src.files@.len() && #[trigger] src.files@[k].path@ == p;
                assert(spec_apply(dm, plan@)[src.files@[k].path@] == src.files@[k].data@);
                assert(sm[src.files@[k].path@] == src.files@[k].data@);
            }
        }
        if dm == sm && plan@.len() > 0 {
            assert(spec_action_sound(sm, dm, plan@[0]));
            assert(false);
        }
    }
    plan
}

/// Mirror convergence, read off the plan's guarantee: after one
/// application, a path absent from the source no longer exists in the
/// destination, and the destination is exactly the source.
pub proof fn lemma_mirror_converges(
    src_map: Map<Seq<char>, Seq<u8>>,
    dest_map: Map<Seq<char>, Seq<u8>>,
    plan: Seq<MirrorAction>,
    p: Seq<char>,
)
    requires
        spec_apply(dest_map, plan) == src_map,
        !src_map.contains_key(p),
    ensures
        !spec_apply(dest_map, plan).contains_key(p),
{
}

} // verus!
