use vstd::prelude::*;

use crate::fstree::{dir_has_newer_than, file_newer_than, spec_dir_has_newer_than,
    spec_file_newer_than, FsTree};

verus! {

/// A recorded build-parameter snapshot next to the current parameters.
/// `recorded` is `None` when the snapshot file is missing or unreadable.
pub struct ParamSnapshot {
    pub recorded: Option<String>,
    pub current: String,
}

/// Everything the staleness oracle reads about one stage, gathered from the
/// filesystem by the caller: whether the stage's output location exists, the
/// stamp's modification time, probes of the watched files, snapshots of the
/// watched directory subtrees, an optional parameter snapshot, and the
/// stage's forced flag.
pub struct StageStatus {
    pub forced: bool,
    pub output_present: bool,
    pub stamp: Option<u64>,
    pub watched_files: Vec<Option<u64>>,
    pub watched_trees: Vec<Option<FsTree>>,
    pub params: Option<ParamSnapshot>,
}

/// A watched subtree judged against the stamp, for owned snapshots.
pub open spec fn spec_tree_newer(tree: Option<FsTree>, stamp: Option<u64>) -> bool {
    match tree {
        None => false,
        Some(t) => match stamp {
            None => true,
            Some(s) => t.has_newer_than(s),
        },
    }
}

/// Is some watched file newer than the stamp?
pub open spec fn spec_any_file_newer(files: Seq<Option<u64>>, stamp: Option<u64>) -> bool {
    exists|i: int| 0 <= i < files.len() && #[trigger] spec_file_newer_than(files[i], stamp)
}

/// Is some watched subtree newer than the stamp?
pub open spec fn spec_any_tree_newer(trees: Seq<Option<FsTree>>, stamp: Option<u64>) -> bool {
    exists|i: int| 0 <= i < trees.len() && #[trigger] spec_tree_newer(trees[i], stamp)
}

/// Does the recorded parameter snapshot differ from the current parameters?
/// A stage without parameters never mismatches; a missing or unreadable
/// recording always does.
pub open spec fn spec_params_mismatch(params: Option<ParamSnapshot>) -> bool {
    match params {
        None => false,
        Some(p) => !(p.recorded matches Some(r) && r@ == p.current@),
    }
}

/// The staleness policy: a stage is stale exactly when it is forced, its
/// output location is absent, its stamp is absent, some watched file or
/// subtree holds a modification time strictly greater than the stamp's, or
/// its recorded parameter snapshot differs from the current parameters.
pub open spec fn spec_is_stale(s: StageStatus) -> bool {
    ||| s.forced
    ||| !s.output_present
    ||| s.stamp is None
    ||| spec_any_file_newer(s.watched_files@, s.stamp)
    ||| spec_any_tree_newer(s.watched_trees@, s.stamp)
    ||| spec_params_mismatch(s.params)
}

/// Decides whether the stage's cached output can be reused; pure in the
/// gathered snapshot. Equal modification times are treated as not newer.
#[verifier::loop_isolation(false)]
pub fn is_stale(s: &StageStatus) -> (r: bool)
    ensures
        r == spec_is_stale(*s),
{
    if s.forced {
        return true;
    }
    if !s.output_present {
        return true;
    }
    if s.stamp.is_none() {
        return true;
    }
    match &s.params {
        None => {},
        Some(p) => {
            match &p.recorded {
                None => {
                    return true;
                },
                Some(r) => {
                    if !(*r == p.current) {
                        return true;
                    }
                },
            }
        },
    }
    let mut i: usize = 0;
    while i < s.watched_files.len()
        invariant
            i <= s.watched_files.len(),
            forall|k: int| 0 <= k < i ==> !spec_file_newer_than(s.watched_files@[k], s.stamp),
        decreases s.watched_files.len() - i,
    {
        if file_newer_than(&s.watched_files[i], &s.stamp) {
            proof {
                assert(spec_file_newer_than(s.watched_files@[i as int], s.stamp));
            }
            return true;
        }
        i += 1;
    }
    let mut j: usize = 0;
    while j < s.watched_trees.len()
        invariant
            j <= s.watched_trees.len(),
            forall|k: int| 0 <= k < j ==> !spec_tree_newer(s.watched_trees@[k], s.stamp),
        decreases s.watched_trees.len() - j,
    {
        let tree = match &s.watched_trees[j] {
            None => None,
            Some(t) => Some(t),
        };
        proof {
            assert(spec_dir_has_newer_than(tree, s.stamp) == spec_tree_newer(
                s.watched_trees@[j as int],
                s.stamp,
            ));
        }
        if dir_has_newer_than(tree, s.stamp) {
            return true;
        }
        j += 1;
    }
    proof {
        if spec_any_file_newer(s.watched_files@, s.stamp) {
            let k = choose|k: int|
                0 <= k < s.watched_files@.len() && #[trigger] spec_file_newer_than(
                    s.watched_files@[k],
                    s.stamp,
                );
        }
        if spec_any_tree_newer(s.watched_trees@, s.stamp) {
            let k = choose|k: int|
                0 <= k < s.watched_trees@.len() && #[trigger] spec_tree_newer(
                    s.watched_trees@[k],
                    s.stamp,
                );
        }
    }
    false
}

/// A stage whose stamp exists, whose output is present, that is not forced,
/// whose watched paths hold nothing newer than the stamp, and whose recorded
/// parameters match the current ones, is not stale.
pub proof fn lemma_fresh_stage_not_stale(s: StageStatus)
    requires
        !s.forced,
        s.output_present,
        s.stamp is Some,
        forall|i: int| 0 <= i < s.watched_files@.len() ==> !spec_file_newer_than(
            #[trigger] s.watched_files@[i],
            s.stamp,
        ),
        forall|i: int| 0 <= i < s.watched_trees@.len() ==> !spec_tree_newer(
            #[trigger] s.watched_trees@[i],
            s.stamp,
        ),
        !spec_params_mismatch(s.params),
    ensures
        !spec_is_stale(s),
{
    if spec_any_file_newer(s.watched_files@, s.stamp) {
        let k = choose|k: int|
            0 <= k < s.watched_files@.len() && #[trigger] spec_file_newer_than(
                s.watched_files@[k],
                s.stamp,
            );
    }
    if spec_any_tree_newer(s.watched_trees@, s.stamp) {
        let k = choose|k: int|
            0 <= k < s.watched_trees@.len() && #[trigger] spec_tree_newer(
                s.watched_trees@[k],
                s.stamp,
            );
    }
}

/// Deleting the stamp makes every stage stale, whatever the timestamps of
/// its inputs (cold start).
pub proof fn lemma_cold_start(s: StageStatus)
    requires
        s.stamp is None,
    ensures
        spec_is_stale(s),
{
}

/// A forced stage is stale even when its stamp is newer than every input.
pub proof fn lemma_forced_stale(s: StageStatus)
    requires
        s.forced,
    ensures
        spec_is_stale(s),
{
}

/// What the frontend dependency install watches.
pub struct FrontendDepsObs {
    pub node_modules_present: bool,
    pub stamp: Option<u64>,
    pub package_json: Option<u64>,
    pub lock_file: Option<u64>,
}

/// The frontend dependency install is needed when its module directory or
/// stamp is absent, or the manifest or lock file is newer than the stamp.
pub open spec fn spec_need_frontend_deps(o: FrontendDepsObs) -> bool {
    ||| !o.node_modules_present
    ||| o.stamp is None
    ||| spec_file_newer_than(o.package_json, o.stamp)
    ||| spec_file_newer_than(o.lock_file, o.stamp)
}

/// Decides whether the frontend dependency install runs.
pub fn need_frontend_deps(o: &FrontendDepsObs) -> (r: bool)
    ensures
        r == spec_need_frontend_deps(*o),
{
    if !o.node_modules_present {
        return true;
    }
    if o.stamp.is_none() {
        return true;
    }
    if file_newer_than(&o.package_json, &o.stamp) {
        return true;
    }
    if file_newer_than(&o.lock_file, &o.stamp) {
        return true;
    }
    false
}

/// What the backend dependency sync watches.
pub struct BackendDepsObs {
    pub venv_present: bool,
    pub stamp: Option<u64>,
    pub pyproject: Option<u64>,
    pub uv_lock: Option<u64>,
}

/// The backend dependency sync is needed when its environment directory or
/// stamp is absent, or the project manifest or lock file is newer.
pub open spec fn spec_need_backend_deps(o: BackendDepsObs) -> bool {
    ||| !o.venv_present
    ||| o.stamp is None
    ||| spec_file_newer_than(o.pyproject, o.stamp)
    ||| spec_file_newer_than(o.uv_lock, o.stamp)
}

/// Decides whether the backend dependency sync runs.
pub fn need_backend_deps(o: &BackendDepsObs) -> (r: bool)
    ensures
        r == spec_need_backend_deps(*o),
{
    if !o.venv_present {
        return true;
    }
    if o.stamp.is_none() {
        return true;
    }
    if file_newer_than(&o.pyproject, &o.stamp) {
        return true;
    }
    if file_newer_than(&o.uv_lock, &o.stamp) {
        return true;
    }
    false
}

/// What the frontend build stage watches.
pub struct WebappBuildObs {
    pub dist_present: bool,
    pub stamp: Option<u64>,
    pub env_recorded: Option<String>,
    pub package_json: Option<u64>,
    pub lock_file: Option<u64>,
    pub index_html: Option<u64>,
    pub src_tree: Option<FsTree>,
    pub public_tree: Option<FsTree>,
    pub vite_configs: Vec<Option<u64>>,
}

/// The frontend build is needed when its output or stamp is absent, the
/// recorded build environment differs from the one about to be used, a
/// watched file is newer than the stamp, or the source or asset subtree
/// holds something newer.
pub open spec fn spec_need_webapp_build(o: WebappBuildObs, env_content: Seq<char>) -> bool {
    ||| !o.dist_present
    ||| o.stamp is None
    ||| !(o.env_recorded matches Some(r) && r@ == env_content)
    ||| spec_file_newer_than(o.package_json, o.stamp)
    ||| spec_file_newer_than(o.lock_file, o.stamp)
    ||| spec_file_newer_than(o.index_html, o.stamp)
    ||| spec_tree_newer(o.src_tree, o.stamp)
    ||| spec_tree_newer(o.public_tree, o.stamp)
    ||| spec_any_file_newer(o.vite_configs@, o.stamp)
}

/// Decides whether the frontend build runs, given the environment content
/// the build would record.
#[verifier::loop_isolation(false)]
pub fn compute_need_webapp_build(o: &WebappBuildObs, env_content: &String) -> (r: bool)
    ensures
        r == spec_need_webapp_build(*o, env_content@),
{
    if !o.dist_present {
        return true;
    }
    if o.stamp.is_none() {
        return true;
    }
    match &o.env_recorded {
        None => {
            proof {
                assert(o.env_recorded is None);
            }
            return true;
        },
        Some(r) => {
            if !(*r == *env_content) {
                return true;
            }
        },
    }
    if file_newer_than(&o.package_json, &o.stamp) {
        return true;
    }
    if file_newer_than(&o.lock_file, &o.stamp) {
        return true;
    }
    if file_newer_than(&o.index_html, &o.stamp) {
        return true;
    }
    let src_tree = match &o.src_tree {
        None => None,
        Some(t) => Some(t),
    };
    if dir_has_newer_than(src_tree, o.stamp) {
        return true;
    }
    let public_tree = match &o.public_tree {
        None => None,
        Some(t) => Some(t),
    };
    if dir_has_newer_than(public_tree, o.stamp) {
        return true;
    }
    let mut i: usize = 0;
    while i < o.vite_configs.len()
        invariant
            i <= o.vite_configs.len(),
            forall|k: int| 0 <= k < i ==> !spec_file_newer_than(o.vite_configs@[k], o.stamp),
        decreases o.vite_configs.len() - i,
    {
        if file_newer_than(&o.vite_configs[i], &o.stamp) {
            proof {
                assert(spec_file_newer_than(o.vite_configs@[i as int], o.stamp));
            }
            return true;
        }
        i += 1;
    }
    proof {
        if spec_any_file_newer(o.vite_configs@, o.stamp) {
            let k = choose|k: int|
                0 <= k < o.vite_configs@.len() && #[trigger] spec_file_newer_than(
                    o.vite_configs@[k],
                    o.stamp,
                );
        }
    }
    false
}

/// What the backend executable build watches.
pub struct BackendBuildObs {
    pub product_present: bool,
    pub build_stamp: Option<u64>,
    pub deps_stamp: Option<u64>,
    pub entry_script: Option<u64>,
    pub app_tree: Option<FsTree>,
}

/// The backend build is needed when its product directory or stamp is
/// absent, the dependency stamp is newer than the build stamp, or the entry
/// script or application subtree is newer.
pub open spec fn spec_need_backend_build(o: BackendBuildObs) -> bool {
    ||| !o.product_present
    ||| o.build_stamp is None
    ||| spec_file_newer_than(o.deps_stamp, o.build_stamp)
    ||| spec_file_newer_than(o.entry_script, o.build_stamp)
    ||| spec_tree_newer(o.app_tree, o.build_stamp)
}

/// Decides whether the backend executable build runs.
pub fn compute_need_backend_pyinstaller(o: &BackendBuildObs) -> (r: bool)
    ensures
        r == spec_need_backend_build(*o),
{
    if !o.product_present {
        return true;
    }
    if o.build_stamp.is_none() {
        return true;
    }
    if file_newer_than(&o.deps_stamp, &o.build_stamp) {
        return true;
    }
    if file_newer_than(&o.entry_script, &o.build_stamp) {
        return true;
    }
    let app_tree = match &o.app_tree {
        None => None,
        Some(t) => Some(t),
    };
    if dir_has_newer_than(app_tree, o.build_stamp) {
        return true;
    }
    false
}


/// What the wrapper build watches: its produced binary, its stamp, the
/// package manifest and lock, and the source subtree.
pub struct SwiftBuildObs {
    pub binary_present: bool,
    pub stamp: Option<u64>,
    pub package_manifest: Option<u64>,
    pub package_resolved: Option<u64>,
    pub sources_tree: Option<FsTree>,
}

/// The wrapper build is needed when its binary or stamp is absent, or the
/// package manifest, the package lock or any source file is newer than the
/// stamp.
pub open spec fn spec_need_swift_build(o: SwiftBuildObs) -> bool {
    ||| !o.binary_present
    ||| o.stamp is None
    ||| spec_file_newer_than(o.package_manifest, o.stamp)
    ||| spec_file_newer_than(o.package_resolved, o.stamp)
    ||| spec_tree_newer(o.sources_tree, o.stamp)
}

/// Decides whether the wrapper build runs.
pub fn compute_need_swift_build(o: &SwiftBuildObs) -> (r: bool)
    ensures
        r == spec_need_swift_build(*o),
{
    if !o.binary_present {
        return true;
    }
    if o.stamp.is_none() {
        return true;
    }
    if file_newer_than(&o.package_manifest, &o.stamp) {
        return true;
    }
    if file_newer_than(&o.package_resolved, &o.stamp) {
        return true;
    }
    let sources_tree = match &o.sources_tree {
        None => None,
        Some(t) => Some(t),
    };
    if dir_has_newer_than(sources_tree, o.stamp) {
        return true;
    }
    false
}

} // verus!
