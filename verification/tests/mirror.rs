use std::collections::HashMap;

use macbuild::mirror::{mirror_plan, DirListing, FileEntry, MirrorAction};

fn listing(entries: &[(&str, &[u8])]) -> DirListing {
    DirListing {
        files: entries
            .iter()
            .map(|(p, d)| FileEntry { path: String::from(*p), data: d.to_vec() })
            .collect(),
    }
}

fn as_map(l: &DirListing) -> HashMap<String, Vec<u8>> {
    l.files.iter().map(|f| (f.path.clone(), f.data.clone())).collect()
}

fn apply(dest: &DirListing, plan: &[MirrorAction]) -> HashMap<String, Vec<u8>> {
    let mut m = as_map(dest);
    for a in plan {
        match a {
            MirrorAction::Remove { path } => {
                m.remove(path);
            },
            MirrorAction::Write { path, data } => {
                m.insert(path.clone(), data.clone());
            },
        }
    }
    m
}

#[test]
fn destination_converges_to_source() {
    let src = listing(&[("a.txt", b"alpha"), ("sub/b.bin", b"beta"), ("c", b"")]);
    let dest = listing(&[
        ("a.txt", b"old alpha"),
        ("stale.log", b"remove me"),
        ("c", b""),
    ]);
    let plan = mirror_plan(&src, &dest);
    let result = apply(&dest, &plan);
    assert_eq!(result, as_map(&src));
}

#[test]
fn destination_only_file_is_deleted() {
    let src = listing(&[("keep", b"1")]);
    let dest = listing(&[("keep", b"1"), ("extra", b"2")]);
    let plan = mirror_plan(&src, &dest);
    assert!(plan
        .iter()
        .any(|a| matches!(a, MirrorAction::Remove { path } if path == "extra")));
    let result = apply(&dest, &plan);
    assert!(!result.contains_key("extra"));
    assert_eq!(result, as_map(&src));
}

#[test]
fn unchanged_file_is_not_rewritten() {
    let src = listing(&[("same", b"data"), ("diff", b"new")]);
    let dest = listing(&[("same", b"data"), ("diff", b"old")]);
    let plan = mirror_plan(&src, &dest);
    assert!(!plan
        .iter()
        .any(|a| matches!(a, MirrorAction::Write { path, .. } if path == "same")));
    assert!(plan
        .iter()
        .any(|a| matches!(a, MirrorAction::Write { path, data } if path == "diff" && data == b"new")));
    assert_eq!(apply(&dest, &plan), as_map(&src));
}

#[test]
fn empty_destination_receives_everything() {
    let src = listing(&[("x", b"1"), ("y", b"2")]);
    let dest = listing(&[]);
    let plan = mirror_plan(&src, &dest);
    assert_eq!(apply(&dest, &plan), as_map(&src));
}

#[test]
fn empty_source_empties_the_destination() {
    let src = listing(&[]);
    let dest = listing(&[("x", b"1"), ("y", b"2")]);
    let plan = mirror_plan(&src, &dest);
    assert!(apply(&dest, &plan).is_empty());
}

#[test]
fn converged_trees_need_no_work() {
    // Re-running assembly with unchanged inputs reproduces the tree
    // without touching anything.
    let src = listing(&[("a", b"1"), ("d/b", b"2")]);
    let dest = listing(&[("a", b"1"), ("d/b", b"2")]);
    let plan = mirror_plan(&src, &dest);
    assert!(plan.is_empty());
}
