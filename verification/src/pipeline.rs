use vstd::prelude::*;

use crate::config::Config;
use crate::coordinator::TaskKind;
use crate::errors::BuildError;
use crate::layout::{spec_side_file_content, SideFileId, StampId};
use crate::staleness::{compute_need_backend_pyinstaller, compute_need_swift_build,
    compute_need_webapp_build, need_backend_deps, need_frontend_deps, spec_need_backend_build,
    spec_need_backend_deps, spec_need_frontend_deps, spec_need_swift_build,
    spec_need_webapp_build, BackendBuildObs, BackendDepsObs, FrontendDepsObs, SwiftBuildObs,
    WebappBuildObs};

verus! {

/// The external commands a plan can name. What each one runs is an opaque
/// collaborator; the plan only decides whether and in what order they run.
#[derive(PartialEq, Eq, Structural, Clone, Copy, Debug)]
pub enum BuildCmd {
    /// Frontend dependency install from the lock file.
    NpmCi,
    /// Frontend dependency install without a lock file.
    NpmInstall,
    /// The frontend build.
    NpmRunBuild,
    /// Backend dependency sync pinned to the lock file.
    UvSyncFrozen,
    /// Backend dependency sync without a lock file.
    UvSync,
    /// The backend executable build.
    PyInstaller,
    /// The wrapper build.
    SwiftBuild,
}

/// One step of a build plan, in the order the caller performs them.
#[derive(PartialEq, Eq, Structural, Clone, Copy, Debug)]
pub enum PlanStep {
    /// Remove the work directory and the output bundle.
    RemoveWorkAndBundle,
    /// Create the output, work, stamp and backend product directories.
    EnsureWorkDirs,
    /// Create the wrapper build's home directory.
    EnsureSwiftHome,
    /// Run a command synchronously; on success write the named stamp.
    RunSync { cmd: BuildCmd, stamp: StampId },
    /// Spawn a command concurrently and register the task with the
    /// coordinator under the given finalization.
    Spawn { cmd: BuildCmd, kind: TaskKind },
    /// Planning mode: announce the removal without performing it.
    AnnounceClean,
    /// Planning mode: announce a command without running it.
    Announce { cmd: BuildCmd },
}

/// Does a step mutate anything: spawn or run a process, or create, write or
/// remove a file or directory?
pub open spec fn spec_step_mutates(s: PlanStep) -> bool {
    match s {
        PlanStep::AnnounceClean => false,
        PlanStep::Announce { .. } => false,
        _ => true,
    }
}

/// Does a step issue (or announce) an external command?
pub open spec fn spec_step_commands(s: PlanStep) -> bool {
    match s {
        PlanStep::RunSync { .. } => true,
        PlanStep::Spawn { .. } => true,
        PlanStep::Announce { .. } => true,
        _ => false,
    }
}

/// Everything the planner reads about the world: the staleness inputs of
/// the five cacheable stages. The lock-file probes inside them also choose
/// between the pinned and unpinned install commands.
pub struct BuildWorld {
    pub frontend_deps: FrontendDepsObs,
    pub webapp_build: WebappBuildObs,
    pub backend_deps: BackendDepsObs,
    pub backend_build: BackendBuildObs,
    pub swift_build: SwiftBuildObs,
}

/// A clean run that really executes removes the work directory before
/// anything else, so every stamp, the recorded build environment and the
/// backend product are gone by the time the stages are judged. A planning
/// run announces the removal without performing it, so the stages are
/// judged against the filesystem as it stands.
pub open spec fn spec_scrub(cfg: Config) -> bool {
    cfg.clean && !cfg.dry_run
}

/// Whether the frontend dependency install runs.
pub open spec fn spec_fd_runs(cfg: Config, w: BuildWorld) -> bool {
    &&& !cfg.skip_frontend
    &&& (spec_scrub(cfg) || spec_need_frontend_deps(w.frontend_deps) || cfg.force_frontend)
}

/// Whether the frontend build runs.
pub open spec fn spec_fb_runs(cfg: Config, w: BuildWorld) -> bool {
    &&& !cfg.skip_frontend
    &&& (spec_scrub(cfg) || spec_need_webapp_build(
        w.webapp_build,
        spec_side_file_content(SideFileId::WebappBuildEnv),
    ) || cfg.force_frontend)
}

/// Whether the backend dependency sync runs.
pub open spec fn spec_bd_runs(cfg: Config, w: BuildWorld) -> bool {
    &&& !cfg.skip_backend
    &&& (spec_scrub(cfg) || spec_need_backend_deps(w.backend_deps) || cfg.force_backend)
}

/// Whether the backend build runs. Beyond its own staleness, a real run in
/// which the dependency sync runs rebuilds too: the sync rewrites the
/// dependency stamp, which is then newer than any already-recorded build
/// stamp. A planning run announces only what the present filesystem shows.
pub open spec fn spec_bb_runs(cfg: Config, w: BuildWorld) -> bool {
    &&& !cfg.skip_backend
    &&& (spec_scrub(cfg) || spec_need_backend_build(w.backend_build) || cfg.force_backend || (
    spec_bd_runs(cfg, w) && !cfg.dry_run))
}

/// The steps of the clean request.
pub open spec fn spec_clean_steps(cfg: Config) -> Seq<PlanStep> {
    if cfg.clean {
        if cfg.dry_run {
            seq![PlanStep::AnnounceClean]
        } else {
            seq![PlanStep::RemoveWorkAndBundle]
        }
    } else {
        Seq::empty()
    }
}

/// The directory preparation steps; a planning run creates nothing.
pub open spec fn spec_prep_steps(cfg: Config) -> Seq<PlanStep> {
    if cfg.dry_run {
        Seq::empty()
    } else {
        seq![PlanStep::EnsureWorkDirs]
    }
}

/// A command that runs synchronously and stamps on success, or its
/// announcement in planning mode.
pub open spec fn spec_sync_or_announce(cfg: Config, cmd: BuildCmd, stamp: StampId) -> Seq<
    PlanStep,
> {
    if cfg.dry_run {
        seq![PlanStep::Announce { cmd }]
    } else {
        seq![PlanStep::RunSync { cmd, stamp }]
    }
}

/// The frontend dependency steps.
pub open spec fn spec_frontend_deps_steps(cfg: Config, w: BuildWorld) -> Seq<PlanStep> {
    if spec_fd_runs(cfg, w) {
        let cmd = if w.frontend_deps.lock_file is Some {
            BuildCmd::NpmCi
        } else {
            BuildCmd::NpmInstall
        };
        spec_sync_or_announce(cfg, cmd, StampId::WebappDeps)
    } else {
        Seq::empty()
    }
}

/// The frontend build steps: announced in planning mode, spawned
/// concurrently otherwise, finalized by recording the build environment and
/// then the stamp.
pub open spec fn spec_frontend_build_steps(cfg: Config, w: BuildWorld) -> Seq<PlanStep> {
    if spec_fb_runs(cfg, w) {
        if cfg.dry_run {
            seq![PlanStep::Announce { cmd: BuildCmd::NpmRunBuild }]
        } else {
            seq![
                PlanStep::Spawn {
                    cmd: BuildCmd::NpmRunBuild,
                    kind: TaskKind::FrontendBuild {
                        env_file: SideFileId::WebappBuildEnv,
                        stamp_file: StampId::WebappBuild,
                    },
                },
            ]
        }
    } else {
        Seq::empty()
    }
}

/// The backend dependency steps.
pub open spec fn spec_backend_deps_steps(cfg: Config, w: BuildWorld) -> Seq<PlanStep> {
    if spec_bd_runs(cfg, w) {
        let cmd = if w.backend_deps.uv_lock is Some {
            BuildCmd::UvSyncFrozen
        } else {
            BuildCmd::UvSync
        };
        spec_sync_or_announce(cfg, cmd, StampId::BackendDeps)
    } else {
        Seq::empty()
    }
}

/// The backend build steps.
pub open spec fn spec_backend_build_steps(cfg: Config, w: BuildWorld) -> Seq<PlanStep> {
    if spec_bb_runs(cfg, w) {
        if cfg.dry_run {
            seq![PlanStep::Announce { cmd: BuildCmd::PyInstaller }]
        } else {
            seq![
                PlanStep::Spawn {
                    cmd: BuildCmd::PyInstaller,
                    kind: TaskKind::BackendBuild { stamp_file: StampId::BackendBuild },
                },
            ]
        }
    } else {
        Seq::empty()
    }
}

/// Whether the wrapper build runs: gated by its own stamp and watched
/// inputs like every other stage, so a fresh wrapper contributes nothing
/// to a no-op run.
pub open spec fn spec_sw_runs(cfg: Config, w: BuildWorld) -> bool {
    &&& !cfg.skip_swift
    &&& (spec_scrub(cfg) || spec_need_swift_build(w.swift_build) || cfg.force_swift)
}

/// The wrapper build steps.
pub open spec fn spec_swift_steps(cfg: Config, w: BuildWorld) -> Seq<PlanStep> {
    if spec_sw_runs(cfg, w) {
        if cfg.dry_run {
            seq![PlanStep::Announce { cmd: BuildCmd::SwiftBuild }]
        } else {
            seq![
                PlanStep::EnsureSwiftHome,
                PlanStep::Spawn {
                    cmd: BuildCmd::SwiftBuild,
                    kind: TaskKind::SwiftBuild { stamp_file: StampId::SwiftBuild },
                },
            ]
        }
    } else {
        Seq::empty()
    }
}

/// The whole stage plan: the clean request, directory preparation, then the
/// five stage decisions in their fixed launch order — frontend
/// dependencies, frontend build, backend dependencies, backend build,
/// wrapper build.
pub open spec fn spec_build_plan(cfg: Config, w: BuildWorld) -> Seq<PlanStep> {
    spec_clean_steps(cfg) + spec_prep_steps(cfg) + spec_frontend_deps_steps(cfg, w)
        + spec_frontend_build_steps(cfg, w) + spec_backend_deps_steps(cfg, w)
        + spec_backend_build_steps(cfg, w) + spec_swift_steps(cfg, w)
}

/// Plans one run: every staleness decision is taken here, and the returned
/// steps are exactly what a run with this configuration performs, in order.
/// The caller executes them, registering each spawned task with the
/// coordinator and writing each named stamp only after the step's command
/// succeeded.
#[verifier::rlimit(100)]
#[verifier::loop_isolation(false)]
pub fn build(cfg: &Config, w: &BuildWorld) -> (r: Vec<PlanStep>)
    ensures
        r@ == spec_build_plan(*cfg, *w),
{
    let mut steps: Vec<PlanStep> = Vec::new();
    let scrub = cfg.clean && !cfg.dry_run;
    if cfg.clean {
        if cfg.dry_run {
            steps.push(PlanStep::AnnounceClean);
        } else {
            steps.push(PlanStep::RemoveWorkAndBundle);
        }
    }
    if !cfg.dry_run {
        steps.push(PlanStep::EnsureWorkDirs);
    }
    proof {
        assert(steps@ =~= spec_clean_steps(*cfg) + spec_prep_steps(*cfg));
    }
    if !cfg.skip_frontend {
        let need = scrub || need_frontend_deps(&w.frontend_deps) || cfg.force_frontend;
        if need {
            let cmd = if w.frontend_deps.lock_file.is_some() {
                BuildCmd::NpmCi
            } else {
                BuildCmd::NpmInstall
            };
            if cfg.dry_run {
                steps.push(PlanStep::Announce { cmd });
            } else {
                steps.push(PlanStep::RunSync { cmd, stamp: StampId::WebappDeps });
            }
        }
    }
    proof {
        assert(steps@ =~= spec_clean_steps(*cfg) + spec_prep_steps(*cfg)
            + spec_frontend_deps_steps(*cfg, *w));
    }
    if !cfg.skip_frontend {
        let env_content = crate::layout::side_file_content(SideFileId::WebappBuildEnv);
        let need = scrub || compute_need_webapp_build(&w.webapp_build, &env_content)
            || cfg.force_frontend;
        if need {
            if cfg.dry_run {
                steps.push(PlanStep::Announce { cmd: BuildCmd::NpmRunBuild });
            } else {
                steps.push(
                    PlanStep::Spawn {
                        cmd: BuildCmd::NpmRunBuild,
                        kind: TaskKind::FrontendBuild {
                            env_file: SideFileId::WebappBuildEnv,
                            stamp_file: StampId::WebappBuild,
                        },
                    },
                );
            }
        }
    }
    proof {
        assert(steps@ =~= spec_clean_steps(*cfg) + spec_prep_steps(*cfg)
            + spec_frontend_deps_steps(*cfg, *w) + spec_frontend_build_steps(*cfg, *w));
    }
    let mut bd_runs = false;
    if !cfg.skip_backend {
        let need = scrub || need_backend_deps(&w.backend_deps) || cfg.force_backend;
        if need {
            bd_runs = true;
            let cmd = if w.backend_deps.uv_lock.is_some() {
                BuildCmd::UvSyncFrozen
            } else {
                BuildCmd::UvSync
            };
            if cfg.dry_run {
                steps.push(PlanStep::Announce { cmd });
            } else {
                steps.push(PlanStep::RunSync { cmd, stamp: StampId::BackendDeps });
            }
        }
    }
    proof {
        assert(bd_runs == spec_bd_runs(*cfg, *w));
        assert(steps@ =~= spec_clean_steps(*cfg) + spec_prep_steps(*cfg)
            + spec_frontend_deps_steps(*cfg, *w) + spec_frontend_build_steps(*cfg, *w)
            + spec_backend_deps_steps(*cfg, *w));
    }
    if !cfg.skip_backend {
        let need = scrub || compute_need_backend_pyinstaller(&w.backend_build)
            || cfg.force_backend || (bd_runs && !cfg.dry_run);
        if need {
            if cfg.dry_run {
                steps.push(PlanStep::Announce { cmd: BuildCmd::PyInstaller });
            } else {
                steps.push(
                    PlanStep::Spawn {
                        cmd: BuildCmd::PyInstaller,
                        kind: TaskKind::BackendBuild { stamp_file: StampId::BackendBuild },
                    },
                );
            }
        }
    }
    proof {
        assert(steps@ =~= spec_clean_steps(*cfg) + spec_prep_steps(*cfg)
            + spec_frontend_deps_steps(*cfg, *w) + spec_frontend_build_steps(*cfg, *w)
            + spec_backend_deps_steps(*cfg, *w) + spec_backend_build_steps(*cfg, *w));
    }
    if !cfg.skip_swift {
        let need = scrub || compute_need_swift_build(&w.swift_build) || cfg.force_swift;
        if need {
            if cfg.dry_run {
                steps.push(PlanStep::Announce { cmd: BuildCmd::SwiftBuild });
            } else {
                steps.push(PlanStep::EnsureSwiftHome);
                steps.push(
                    PlanStep::Spawn {
                        cmd: BuildCmd::SwiftBuild,
                        kind: TaskKind::SwiftBuild { stamp_file: StampId::SwiftBuild },
                    },
                );
            }
        }
    }
    proof {
        assert(steps@ =~= spec_build_plan(*cfg, *w));
    }
    steps
}

/// The idempotent no-op run: when nothing is forced and nothing is
/// cleaned, and every stage's cache — the wrapper build's included — is
/// fresh, a full run issues not a single external command — neither
/// install nor build — so only bundle re-assembly is left to do.
pub proof fn lemma_no_op_run(cfg: Config, w: BuildWorld)
    requires
        !cfg.clean,
        !cfg.force_frontend,
        !cfg.force_backend,
        !cfg.force_swift,
        !spec_need_frontend_deps(w.frontend_deps),
        !spec_need_webapp_build(
            w.webapp_build,
            spec_side_file_content(SideFileId::WebappBuildEnv),
        ),
        !spec_need_backend_deps(w.backend_deps),
        !spec_need_backend_build(w.backend_build),
        !spec_need_swift_build(w.swift_build),
    ensures
        forall|i: int| 0 <= i < spec_build_plan(cfg, w).len() ==> !spec_step_commands(
            #[trigger] spec_build_plan(cfg, w)[i],
        ),
{
}

/// Planning-mode purity: a dry run's plan holds no mutating step — no
/// process is spawned or run, no directory is created or removed, no stamp
/// or file is written — so the coordinator is never left holding a live
/// process handle and the filesystem is left exactly as it was.
pub proof fn lemma_dry_run_pure(cfg: Config, w: BuildWorld)
    requires
        cfg.dry_run,
    ensures
        forall|i: int| 0 <= i < spec_build_plan(cfg, w).len() ==> !spec_step_mutates(
            #[trigger] spec_build_plan(cfg, w)[i],
        ),
{
}

/// The command a step issues or announces, if any.
pub open spec fn spec_step_cmd(s: PlanStep) -> Option<BuildCmd> {
    match s {
        PlanStep::RunSync { cmd, .. } => Some(cmd),
        PlanStep::Spawn { cmd, .. } => Some(cmd),
        PlanStep::Announce { cmd } => Some(cmd),
        _ => None,
    }
}

/// No retries, ever: one run's plan issues (or announces) each external
/// command at most once.
#[verifier::rlimit(100)]
pub proof fn lemma_each_command_at_most_once(cfg: Config, w: BuildWorld)
    ensures
        forall|i: int, j: int|
            0 <= i < j < spec_build_plan(cfg, w).len() && spec_step_cmd(
                #[trigger] spec_build_plan(cfg, w)[i],
            ) is Some ==> spec_step_cmd(spec_build_plan(cfg, w)[i]) != spec_step_cmd(
                #[trigger] spec_build_plan(cfg, w)[j],
            ),
{
}

/// A probe of the three project subdirectories under a candidate root.
#[derive(PartialEq, Eq, Structural, Clone, Copy, Debug)]
pub struct RootProbe {
    pub webapp: bool,
    pub backend: bool,
    pub macos_app: bool,
}

/// A directory is taken for the repository root exactly when all three
/// project subdirectories are present under it.
pub open spec fn spec_looks_like_repo_root(p: RootProbe) -> bool {
    p.webapp && p.backend && p.macos_app
}

/// Does the probed directory look like the repository root?
pub fn looks_like_repo_root(p: &RootProbe) -> (r: bool)
    ensures
        r == spec_looks_like_repo_root(*p),
{
    p.webapp && p.backend && p.macos_app
}

/// The first candidate that looks like the repository root, out of the
/// candidates in the order they are tried: the working directory, then each
/// ancestor of the executable, then each ancestor of the build-time
/// manifest directory.
#[verifier::loop_isolation(false)]
pub fn find_repo_root(candidates: &Vec<RootProbe>) -> (r: Option<usize>)
    ensures
        match r {
            Some(i) => i < candidates@.len() && spec_looks_like_repo_root(candidates@[i as int])
                && forall|k: int| 0 <= k < i ==> !spec_looks_like_repo_root(
                #[trigger] candidates@[k],
            ),
            None => forall|k: int| 0 <= k < candidates@.len() ==> !spec_looks_like_repo_root(
                #[trigger] candidates@[k],
            ),
        },
{
    let mut i: usize = 0;
    while i < candidates.len()
        invariant
            i <= candidates.len(),
            forall|k: int| 0 <= k < i ==> !spec_looks_like_repo_root(#[trigger] candidates@[k]),
        decreases candidates.len() - i,
    {
        if looks_like_repo_root(&candidates[i]) {
            return Some(i);
        }
        i += 1;
    }
    None
}

/// The directory a command runs in, as a project subdirectory of the
/// repository root.
#[derive(PartialEq, Eq, Structural, Clone, Copy, Debug)]
pub enum CommandDir {
    Webapp,
    Backend,
    Wrapper,
}

/// A fully rendered external command: program name, argument list, working
/// directory, and the extra environment bindings it runs under.
pub struct CommandLine {
    pub program: &'static str,
    pub args: Vec<String>,
    pub cwd: CommandDir,
    pub envs: Vec<(&'static str, String)>,
}

/// The program each command invokes.
pub open spec fn spec_command_program(cmd: BuildCmd) -> Seq<char> {
    match cmd {
        BuildCmd::NpmCi | BuildCmd::NpmInstall | BuildCmd::NpmRunBuild => "npm"@,
        BuildCmd::UvSyncFrozen | BuildCmd::UvSync | BuildCmd::PyInstaller => "uv"@,
        BuildCmd::SwiftBuild => "swift"@,
    }
}

/// The directory each command runs in.
pub open spec fn spec_command_dir(cmd: BuildCmd) -> CommandDir {
    match cmd {
        BuildCmd::NpmCi | BuildCmd::NpmInstall | BuildCmd::NpmRunBuild => CommandDir::Webapp,
        BuildCmd::UvSyncFrozen | BuildCmd::UvSync | BuildCmd::PyInstaller => CommandDir::Backend,
        BuildCmd::SwiftBuild => CommandDir::Wrapper,
    }
}

/// The argument list of each command. The backend executable build takes
/// the three directories the caller lays its product, work files and spec
/// files in.
pub open spec fn spec_command_args(
    cmd: BuildCmd,
    distpath: Seq<char>,
    workpath: Seq<char>,
    specpath: Seq<char>,
) -> Seq<Seq<char>> {
    match cmd {
        BuildCmd::NpmCi => seq!["ci"@, "--no-audit"@, "--fund=false"@],
        BuildCmd::NpmInstall => seq!["install"@, "--no-audit"@, "--fund=false"@],
        BuildCmd::NpmRunBuild => seq!["run"@, "build"@],
        BuildCmd::UvSyncFrozen => seq!["sync"@, "--frozen"@],
        BuildCmd::UvSync => seq!["sync"@],
        BuildCmd::PyInstaller => seq![
            "run"@,
            "--with"@,
            "pyinstaller"@,
            "--"@,
            "pyinstaller"@,
            "--noconfirm"@,
            "--noupx"@,
            "--log-level"@,
            "ERROR"@,
            "--name"@,
            "backend_server"@,
            "--distpath"@,
            distpath,
            "--workpath"@,
            workpath,
            "--specpath"@,
            specpath,
            "--collect-all"@,
            "uvicorn"@,
            "--collect-all"@,
            "fastapi"@,
            "--collect-all"@,
            "starlette"@,
            "--exclude-module"@,
            "tkinter"@,
            "--exclude-module"@,
            "matplotlib"@,
            "--exclude-module"@,
            "PyQt5"@,
            "--exclude-module"@,
            "PyQt6"@,
            "--exclude-module"@,
            "PySide2"@,
            "--exclude-module"@,
            "PySide6"@,
            "--exclude-module"@,
            "numpy.distutils"@,
            "--exclude-module"@,
            "setuptools"@,
            "--exclude-module"@,
            "distutils"@,
            "--exclude-module"@,
            "test"@,
            "--exclude-module"@,
            "unittest"@,
            "--exclude-module"@,
            "pytest"@,
            "macapp_entry.py"@,
        ],
        BuildCmd::SwiftBuild => seq!["build"@, "-c"@, "release"@, "--disable-sandbox"@],
    }
}

/// Renders a command. The frontend build is pinned to its recorded
/// environment; the wrapper build runs under the dedicated home directory
/// the caller passes in.
#[verifier::rlimit(100)]
#[verifier::loop_isolation(false)]
pub fn command_line(
    cmd: BuildCmd,
    distpath: &str,
    workpath: &str,
    specpath: &str,
    swift_home: &str,
) -> (r: CommandLine)
    ensures
        r.program@ == spec_command_program(cmd),
        r.cwd == spec_command_dir(cmd),
        r.args.deep_view() == spec_command_args(cmd, distpath@, workpath@, specpath@),
        cmd == BuildCmd::NpmRunBuild ==> {
            &&& r.envs@.len() == 2
            &&& r.envs@[0].0@ == "VITE_API_MODE"@
            &&& r.envs@[0].1@ == "real"@
            &&& r.envs@[1].0@ == "VITE_API_BASE_URL"@
            &&& r.envs@[1].1@.len() == 0
        },
        cmd == BuildCmd::SwiftBuild ==> {
            &&& r.envs@.len() == 1
            &&& r.envs@[0].0@ == "HOME"@
            &&& r.envs@[0].1@ == swift_home@
        },
        cmd != BuildCmd::NpmRunBuild && cmd != BuildCmd::SwiftBuild ==> r.envs@.len() == 0,
{
    let mut args: Vec<String> = Vec::new();
    let mut envs: Vec<(&'static str, String)> = Vec::new();
    let program: &'static str;
    let cwd: CommandDir;
    match cmd {
        BuildCmd::NpmCi => {
            program = "npm";
            cwd = CommandDir::Webapp;
            args.push(String::from_str("ci"));
            args.push(String::from_str("--no-audit"));
            args.push(String::from_str("--fund=false"));
        },
        BuildCmd::NpmInstall => {
            program = "npm";
            cwd = CommandDir::Webapp;
            args.push(String::from_str("install"));
            args.push(String::from_str("--no-audit"));
            args.push(String::from_str("--fund=false"));
        },
        BuildCmd::NpmRunBuild => {
            program = "npm";
            cwd = CommandDir::Webapp;
            args.push(String::from_str("run"));
            args.push(String::from_str("build"));
            envs.push(("VITE_API_MODE", String::from_str("real")));
            envs.push(("VITE_API_BASE_URL", String::new()));
        },
        BuildCmd::UvSyncFrozen => {
            program = "uv";
            cwd = CommandDir::Backend;
            args.push(String::from_str("sync"));
            args.push(String::from_str("--frozen"));
        },
        BuildCmd::UvSync => {
            program = "uv";
            cwd = CommandDir::Backend;
            args.push(String::from_str("sync"));
        },
        BuildCmd::PyInstaller => {
            program = "uv";
            cwd = CommandDir::Backend;
            args.push(String::from_str("run"));
            args.push(String::from_str("--with"));
            args.push(String::from_str("pyinstaller"));
            args.push(String::from_str("--"));
            args.push(String::from_str("pyinstaller"));
            args.push(String::from_str("--noconfirm"));
            args.push(String::from_str("--noupx"));
            args.push(String::from_str("--log-level"));
            args.push(String::from_str("ERROR"));
            args.push(String::from_str("--name"));
            args.push(String::from_str("backend_server"));
            args.push(String::from_str("--distpath"));
            args.push(distpath.to_owned());
            args.push(String::from_str("--workpath"));
            args.push(workpath.to_owned());
            args.push(String::from_str("--specpath"));
            args.push(specpath.to_owned());
            args.push(String::from_str("--collect-all"));
            args.push(String::from_str("uvicorn"));
            args.push(String::from_str("--collect-all"));
            args.push(String::from_str("fastapi"));
            args.push(String::from_str("--collect-all"));
            args.push(String::from_str("starlette"));
            args.push(String::from_str("--exclude-module"));
            args.push(String::from_str("tkinter"));
            args.push(String::from_str("--exclude-module"));
            args.push(String::from_str("matplotlib"));
            args.push(String::from_str("--exclude-module"));
            args.push(String::from_str("PyQt5"));
            args.push(String::from_str("--exclude-module"));
            args.push(String::from_str("PyQt6"));
            args.push(String::from_str("--exclude-module"));
            args.push(String::from_str("PySide2"));
            args.push(String::from_str("--exclude-module"));
            args.push(String::from_str("PySide6"));
            args.push(String::from_str("--exclude-module"));
            args.push(String::from_str("numpy.distutils"));
            args.push(String::from_str("--exclude-module"));
            args.push(String::from_str("setuptools"));
            args.push(String::from_str("--exclude-module"));
            args.push(String::from_str("distutils"));
            args.push(String::from_str("--exclude-module"));
            args.push(String::from_str("test"));
            args.push(String::from_str("--exclude-module"));
            args.push(String::from_str("unittest"));
            args.push(String::from_str("--exclude-module"));
            args.push(String::from_str("pytest"));
            args.push(String::from_str("macapp_entry.py"));
        },
        BuildCmd::SwiftBuild => {
            program = "swift";
            cwd = CommandDir::Wrapper;
            args.push(String::from_str("build"));
            args.push(String::from_str("-c"));
            args.push(String::from_str("release"));
            args.push(String::from_str("--disable-sandbox"));
            envs.push(("HOME", swift_home.to_owned()));
        },
    }
    proof {
        assert(args.deep_view() =~= spec_command_args(cmd, distpath@, workpath@, specpath@));
    }
    CommandLine { program, args, cwd, envs }
}

/// The first present candidate of an ordered probe — the decision behind
/// looking an executable up along the search path, and behind picking an
/// icon source.
#[verifier::loop_isolation(false)]
pub fn first_present(present: &Vec<bool>) -> (r: Option<usize>)
    ensures
        match r {
            Some(i) => i < present@.len() && present@[i as int] && forall|k: int|
                0 <= k < i ==> !present@[k],
            None => forall|k: int| 0 <= k < present@.len() ==> !present@[k],
        },
{
    let mut i: usize = 0;
    while i < present.len()
        invariant
            i <= present@.len(),
            forall|k: int| 0 <= k < i ==> !present@[k],
        decreases present.len() - i,
    {
        if present[i] {
            return Some(i);
        }
        i += 1;
    }
    None
}

/// A required external command, present or not: fails fast with the
/// missing tool's name before anything runs or is written.
pub fn require_cmd(tool: &String, found: bool) -> (r: Result<(), BuildError>)
    ensures
        found ==> r is Ok,
        !found ==> (r matches Err(e) && e == (BuildError::ToolchainMissing { tool: *tool })),
{
    if found {
        Ok(())
    } else {
        Err(BuildError::ToolchainMissing { tool: tool.clone() })
    }
}

/// An optional tool that was probed: says whether its absence is worth a
/// note, which the original surfaces only in verbose runs.
pub fn warn_if_missing(cfg: &Config, found: bool) -> (warn: bool)
    ensures
        warn == (cfg.verbose && !found),
{
    cfg.verbose && !found
}

/// How launching a synchronous command ended, as observed by the caller:
/// it could not be launched at all, or it exited with the given status
/// (`None` when ended by a signal).
pub enum CommandOutcome {
    NotLaunched,
    Exited { status: Option<i32> },
}

/// Classifies a finished synchronous command: exit status 0 succeeds; any
/// other exit is that command's failure; a command that could not be
/// launched names the missing executable.
pub fn command_result(program: String, args: Vec<String>, outcome: CommandOutcome) -> (r: Result<
    (),
    BuildError,
>)
    ensures
        r == (match outcome {
            CommandOutcome::NotLaunched => Err::<(), BuildError>(
                BuildError::ExecutableNotFound { program },
            ),
            CommandOutcome::Exited { status } => if status == Some(0i32) {
                Ok(())
            } else {
                Err(BuildError::CommandFailed { program, args, exit_status: status })
            },
        }),
{
    match outcome {
        CommandOutcome::NotLaunched => Err(BuildError::ExecutableNotFound { program }),
        CommandOutcome::Exited { status } => {
            let ok = match status {
                Some(code) => code == 0,
                None => false,
            };
            if ok {
                Ok(())
            } else {
                Err(BuildError::CommandFailed { program, args, exit_status: status })
            }
        },
    }
}

} // verus!
