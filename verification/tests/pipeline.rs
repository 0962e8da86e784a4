use macbuild::config::Config;
use macbuild::errors::BuildError;
use macbuild::fstree::FsTree;
use macbuild::layout::{side_file_content, SideFileId, StampId};
use macbuild::pipeline::{build, command_line, command_result, find_repo_root, first_present,
    looks_like_repo_root, require_cmd, warn_if_missing, BuildCmd, BuildWorld, CommandDir,
    CommandOutcome, PlanStep, RootProbe};
use macbuild::staleness::{BackendBuildObs, BackendDepsObs, FrontendDepsObs, SwiftBuildObs,
    WebappBuildObs};

fn base_config() -> Config {
    Config {
        app_name: String::from("Budget"),
        bundle_id: String::from("com.budget.app"),
        app_version: String::from("0.1.0"),
        build_number: String::from("1"),
        clean: false,
        force_frontend: false,
        force_backend: false,
        force_swift: false,
        skip_frontend: false,
        skip_backend: false,
        skip_swift: false,
        dev_mode: false,
        verbose: false,
        dry_run: false,
        codesign_identity: String::new(),
    }
}

fn fresh_world() -> BuildWorld {
    BuildWorld {
        frontend_deps: FrontendDepsObs {
            node_modules_present: true,
            stamp: Some(100),
            package_json: Some(1),
            lock_file: Some(2),
        },
        webapp_build: WebappBuildObs {
            dist_present: true,
            stamp: Some(100),
            env_recorded: Some(side_file_content(SideFileId::WebappBuildEnv)),
            package_json: Some(1),
            lock_file: Some(2),
            index_html: Some(3),
            src_tree: Some(FsTree::Dir { entries: vec![FsTree::File { mtime: 4 }] }),
            public_tree: Some(FsTree::Dir { entries: vec![] }),
            vite_configs: vec![Some(5), None, None, None],
        },
        backend_deps: BackendDepsObs {
            venv_present: true,
            stamp: Some(100),
            pyproject: Some(1),
            uv_lock: Some(2),
        },
        backend_build: BackendBuildObs {
            product_present: true,
            build_stamp: Some(100),
            deps_stamp: Some(99),
            entry_script: Some(1),
            app_tree: Some(FsTree::Dir { entries: vec![FsTree::File { mtime: 2 }] }),
        },
        swift_build: SwiftBuildObs {
            binary_present: true,
            stamp: Some(100),
            package_manifest: Some(1),
            package_resolved: Some(2),
            sources_tree: Some(FsTree::Dir { entries: vec![FsTree::File { mtime: 3 }] }),
        },
    }
}

fn stale_world() -> BuildWorld {
    let mut w = fresh_world();
    w.frontend_deps.stamp = None;
    w.webapp_build.stamp = None;
    w.backend_deps.stamp = None;
    w.backend_build.build_stamp = None;
    w.swift_build.stamp = None;
    w
}

fn is_command_step(s: &PlanStep) -> bool {
    matches!(
        s,
        PlanStep::RunSync { .. } | PlanStep::Spawn { .. } | PlanStep::Announce { .. }
    )
}

fn is_mutating_step(s: &PlanStep) -> bool {
    !matches!(s, PlanStep::Announce { .. } | PlanStep::AnnounceClean)
}

#[test]
fn no_op_run_issues_zero_build_invocations() {
    // Every stage's stamp — the wrapper build's included — is fresh: the
    // plan holds no command at all, so only bundle re-assembly is left to
    // the run.
    let cfg = base_config();
    let plan = build(&cfg, &fresh_world());
    assert!(plan.iter().all(|s| !is_command_step(s)));
    assert_eq!(plan, vec![PlanStep::EnsureWorkDirs]);
}

#[test]
fn full_run_from_cold_cache_runs_every_stage_in_order() {
    let cfg = base_config();
    let plan = build(&cfg, &stale_world());
    assert_eq!(
        plan,
        vec![
            PlanStep::EnsureWorkDirs,
            PlanStep::RunSync { cmd: BuildCmd::NpmCi, stamp: StampId::WebappDeps },
            PlanStep::Spawn {
                cmd: BuildCmd::NpmRunBuild,
                kind: macbuild::coordinator::TaskKind::FrontendBuild {
                    env_file: SideFileId::WebappBuildEnv,
                    stamp_file: StampId::WebappBuild,
                },
            },
            PlanStep::RunSync { cmd: BuildCmd::UvSyncFrozen, stamp: StampId::BackendDeps },
            PlanStep::Spawn {
                cmd: BuildCmd::PyInstaller,
                kind: macbuild::coordinator::TaskKind::BackendBuild {
                    stamp_file: StampId::BackendBuild,
                },
            },
            PlanStep::EnsureSwiftHome,
            PlanStep::Spawn {
                cmd: BuildCmd::SwiftBuild,
                kind: macbuild::coordinator::TaskKind::SwiftBuild {
                    stamp_file: StampId::SwiftBuild,
                },
            },
        ]
    );
}

#[test]
fn stale_wrapper_sources_rebuild_the_wrapper() {
    let cfg = base_config();
    let mut w = fresh_world();
    w.swift_build.sources_tree = Some(FsTree::Dir { entries: vec![FsTree::File { mtime: 150 }] });
    let plan = build(&cfg, &w);
    assert_eq!(
        plan,
        vec![
            PlanStep::EnsureWorkDirs,
            PlanStep::EnsureSwiftHome,
            PlanStep::Spawn {
                cmd: BuildCmd::SwiftBuild,
                kind: macbuild::coordinator::TaskKind::SwiftBuild {
                    stamp_file: StampId::SwiftBuild,
                },
            },
        ]
    );
}

#[test]
fn forced_wrapper_rebuilds_despite_fresh_stamp() {
    let mut cfg = base_config();
    cfg.force_swift = true;
    let plan = build(&cfg, &fresh_world());
    assert!(plan
        .iter()
        .any(|s| matches!(s, PlanStep::Spawn { cmd: BuildCmd::SwiftBuild, .. })));
}

#[test]
fn missing_lock_files_pick_the_unpinned_installs() {
    let cfg = base_config();
    let mut w = stale_world();
    w.frontend_deps.lock_file = None;
    w.backend_deps.uv_lock = None;
    let plan = build(&cfg, &w);
    assert!(plan.contains(&PlanStep::RunSync {
        cmd: BuildCmd::NpmInstall,
        stamp: StampId::WebappDeps
    }));
    assert!(plan.contains(&PlanStep::RunSync {
        cmd: BuildCmd::UvSync,
        stamp: StampId::BackendDeps
    }));
}

#[test]
fn dry_run_plan_mutates_nothing() {
    let mut cfg = base_config();
    cfg.dry_run = true;
    cfg.clean = true;
    let plan = build(&cfg, &stale_world());
    assert!(!plan.is_empty());
    assert!(plan.iter().all(|s| !is_mutating_step(s)));
}

#[test]
fn dry_run_announces_what_a_real_run_would_do() {
    let mut cfg = base_config();
    cfg.dry_run = true;
    let plan = build(&cfg, &stale_world());
    assert_eq!(
        plan,
        vec![
            PlanStep::Announce { cmd: BuildCmd::NpmCi },
            PlanStep::Announce { cmd: BuildCmd::NpmRunBuild },
            PlanStep::Announce { cmd: BuildCmd::UvSyncFrozen },
            PlanStep::Announce { cmd: BuildCmd::PyInstaller },
            PlanStep::Announce { cmd: BuildCmd::SwiftBuild },
        ]
    );
}

#[test]
fn clean_run_rebuilds_everything() {
    let mut cfg = base_config();
    cfg.clean = true;
    let plan = build(&cfg, &fresh_world());
    assert_eq!(plan[0], PlanStep::RemoveWorkAndBundle);
    assert!(plan.contains(&PlanStep::RunSync {
        cmd: BuildCmd::NpmCi,
        stamp: StampId::WebappDeps
    }));
    assert!(plan
        .iter()
        .any(|s| matches!(s, PlanStep::Spawn { cmd: BuildCmd::PyInstaller, .. })));
}

#[test]
fn backend_dependency_sync_forces_backend_rebuild() {
    // The sync rewrites the dependency stamp, so a real run that syncs
    // must also rebuild, even though the snapshot still looks fresh.
    let cfg = base_config();
    let mut w = fresh_world();
    w.backend_deps.stamp = None;
    let plan = build(&cfg, &w);
    assert!(plan
        .iter()
        .any(|s| matches!(s, PlanStep::Spawn { cmd: BuildCmd::PyInstaller, .. })));
}

#[test]
fn dry_run_does_not_chain_backend_rebuild() {
    // A planning run writes no stamp, so the chained rebuild is not
    // announced; only what the present filesystem shows is.
    let mut cfg = base_config();
    cfg.dry_run = true;
    cfg.skip_swift = true;
    let mut w = fresh_world();
    w.backend_deps.stamp = None;
    let plan = build(&cfg, &w);
    assert_eq!(plan, vec![PlanStep::Announce { cmd: BuildCmd::UvSyncFrozen }]);
}

#[test]
fn skipped_stages_plan_nothing() {
    let mut cfg = base_config();
    cfg.skip_frontend = true;
    cfg.skip_backend = true;
    cfg.skip_swift = true;
    let plan = build(&cfg, &stale_world());
    assert_eq!(plan, vec![PlanStep::EnsureWorkDirs]);
}

#[test]
fn repo_root_probe_requires_all_three_subdirectories() {
    assert!(looks_like_repo_root(&RootProbe { webapp: true, backend: true, macos_app: true }));
    assert!(!looks_like_repo_root(&RootProbe { webapp: true, backend: false, macos_app: true }));
}

#[test]
fn repo_root_search_takes_first_match() {
    let candidates = vec![
        RootProbe { webapp: true, backend: false, macos_app: false },
        RootProbe { webapp: true, backend: true, macos_app: true },
        RootProbe { webapp: true, backend: true, macos_app: true },
    ];
    assert_eq!(find_repo_root(&candidates), Some(1));
    let none = vec![RootProbe { webapp: false, backend: false, macos_app: false }];
    assert_eq!(find_repo_root(&none), None);
}

#[test]
fn missing_required_tool_fails_fast() {
    let err = require_cmd(&String::from("npm"), false).expect_err("tool missing");
    match err {
        BuildError::ToolchainMissing { tool } => assert_eq!(tool, "npm"),
        other => panic!("unexpected error: {:?}", other),
    }
    assert!(require_cmd(&String::from("npm"), true).is_ok());
}

#[test]
fn optional_tool_warns_only_in_verbose_runs() {
    let mut cfg = base_config();
    assert!(!warn_if_missing(&cfg, false));
    cfg.verbose = true;
    assert!(warn_if_missing(&cfg, false));
    assert!(!warn_if_missing(&cfg, true));
}

#[test]
fn command_results_follow_the_exit_status() {
    assert!(command_result(
        String::from("npm"),
        vec![String::from("ci")],
        CommandOutcome::Exited { status: Some(0) }
    )
    .is_ok());
    let err = command_result(
        String::from("npm"),
        vec![String::from("ci")],
        CommandOutcome::Exited { status: Some(7) },
    )
    .expect_err("non-zero exit");
    match err {
        BuildError::CommandFailed { program, args, exit_status } => {
            assert_eq!(program, "npm");
            assert_eq!(args, vec![String::from("ci")]);
            assert_eq!(exit_status, Some(7));
        },
        other => panic!("unexpected error: {:?}", other),
    }
    let err = command_result(String::from("uv"), vec![], CommandOutcome::NotLaunched)
        .expect_err("not launched");
    match err {
        BuildError::ExecutableNotFound { program } => assert_eq!(program, "uv"),
        other => panic!("unexpected error: {:?}", other),
    }
}

#[test]
fn first_present_picks_the_earliest_hit() {
    assert_eq!(first_present(&vec![false, false, true, true]), Some(2));
    assert_eq!(first_present(&vec![false, false]), None);
    assert_eq!(first_present(&Vec::new()), None);
}

#[test]
fn rendered_commands_match_the_documented_invocations() {
    let line = command_line(BuildCmd::NpmCi, "D", "W", "S", "H");
    assert_eq!(line.program, "npm");
    assert_eq!(line.cwd, CommandDir::Webapp);
    assert_eq!(line.args, vec!["ci", "--no-audit", "--fund=false"]);
    assert!(line.envs.is_empty());

    let line = command_line(BuildCmd::NpmRunBuild, "D", "W", "S", "H");
    assert_eq!(line.args, vec!["run", "build"]);
    assert_eq!(line.envs.len(), 2);
    assert_eq!(line.envs[0].0, "VITE_API_MODE");
    assert_eq!(line.envs[0].1, "real");
    assert_eq!(line.envs[1].0, "VITE_API_BASE_URL");
    assert_eq!(line.envs[1].1, "");

    let line = command_line(BuildCmd::UvSyncFrozen, "D", "W", "S", "H");
    assert_eq!(line.program, "uv");
    assert_eq!(line.cwd, CommandDir::Backend);
    assert_eq!(line.args, vec!["sync", "--frozen"]);

    let line = command_line(BuildCmd::PyInstaller, "/out/dist", "/out/work", "/out/spec", "H");
    assert_eq!(line.program, "uv");
    assert_eq!(line.args.len(), 48);
    assert_eq!(line.args[0], "run");
    assert_eq!(&line.args[11..17], &[
        "--distpath", "/out/dist", "--workpath", "/out/work", "--specpath", "/out/spec",
    ]);
    assert_eq!(line.args[47], "macapp_entry.py");

    let line = command_line(BuildCmd::SwiftBuild, "D", "W", "S", "/work/swift_home");
    assert_eq!(line.program, "swift");
    assert_eq!(line.cwd, CommandDir::Wrapper);
    assert_eq!(line.args, vec!["build", "-c", "release", "--disable-sandbox"]);
    assert_eq!(line.envs.len(), 1);
    assert_eq!(line.envs[0].0, "HOME");
    assert_eq!(line.envs[0].1, "/work/swift_home");
}
