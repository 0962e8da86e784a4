use macbuild::config::{env_bool, env_string, Ansi, AnsiColor, Cli, CliCommand, CliError, Config};
use macbuild::layout::{side_file_content, side_file_rel_path, stamp_rel_path, SideFileId, StampId};

fn env(pairs: &[(&str, &str)]) -> Vec<(String, String)> {
    pairs.iter().map(|(k, v)| (String::from(*k), String::from(*v))).collect()
}

fn args(list: &[&str]) -> Vec<String> {
    list.iter().map(|a| String::from(*a)).collect()
}

#[test]
fn string_settings_fall_back_to_defaults() {
    let e = env(&[("APP_NAME", "Widget")]);
    assert_eq!(env_string(&e, &String::from("APP_NAME"), "Budget"), "Widget");
    assert_eq!(env_string(&e, &String::from("BUNDLE_ID"), "com.budget.app"), "com.budget.app");
}

#[test]
fn boolean_settings_read_the_documented_truthy_values() {
    let e = env(&[
        ("A", "1"),
        ("B", "true"),
        ("C", "TRUE"),
        ("D", "Yes"),
        ("E", "0"),
        ("F", "no"),
        ("G", ""),
    ]);
    assert!(env_bool(&e, &String::from("A"), false));
    assert!(env_bool(&e, &String::from("B"), false));
    assert!(env_bool(&e, &String::from("C"), false));
    assert!(env_bool(&e, &String::from("D"), false));
    assert!(!env_bool(&e, &String::from("E"), true));
    assert!(!env_bool(&e, &String::from("F"), true));
    assert!(!env_bool(&e, &String::from("G"), true));
    assert!(env_bool(&e, &String::from("UNSET"), true));
    assert!(!env_bool(&e, &String::from("UNSET"), false));
}

#[test]
fn config_resolves_every_field_from_the_snapshot() {
    let e = env(&[
        ("APP_NAME", "Widget"),
        ("BUNDLE_ID", "com.x.widget"),
        ("APP_VERSION", "2.3.0"),
        ("BUILD_NUMBER", "7"),
        ("CLEAN", "1"),
        ("SKIP_BACKEND", "yes"),
        ("DRY_RUN", "true"),
        ("CODESIGN_IDENTITY", "Dev ID"),
    ]);
    let cfg = Config::from_env(&e);
    assert_eq!(cfg.app_name, "Widget");
    assert_eq!(cfg.bundle_id, "com.x.widget");
    assert_eq!(cfg.app_version, "2.3.0");
    assert_eq!(cfg.build_number, "7");
    assert!(cfg.clean);
    assert!(cfg.skip_backend);
    assert!(cfg.dry_run);
    assert!(!cfg.skip_frontend);
    assert!(!cfg.dev_mode);
    assert_eq!(cfg.codesign_identity, "Dev ID");
}

#[test]
fn config_defaults_with_an_empty_environment() {
    let cfg = Config::from_env(&Vec::new());
    assert_eq!(cfg.app_name, "Budget");
    assert_eq!(cfg.bundle_id, "com.budget.app");
    assert_eq!(cfg.app_version, "0.1.0");
    assert_eq!(cfg.build_number, "1");
    assert!(!cfg.clean && !cfg.dry_run && !cfg.verbose);
    assert_eq!(cfg.codesign_identity, "");
}

#[test]
fn dev_mode_skips_backend_and_wrapper_and_disables_signing() {
    let e = env(&[("DEV_MODE", "1"), ("CODESIGN_IDENTITY", "Dev ID")]);
    let mut cfg = Config::from_env(&e);
    cfg.apply_dev_mode();
    assert!(cfg.skip_backend);
    assert!(cfg.skip_swift);
    assert_eq!(cfg.codesign_identity, "");
    assert!(!cfg.skip_frontend);
}

#[test]
fn dev_mode_off_changes_nothing() {
    let e = env(&[("CODESIGN_IDENTITY", "Dev ID")]);
    let mut cfg = Config::from_env(&e);
    cfg.apply_dev_mode();
    assert!(!cfg.skip_backend);
    assert_eq!(cfg.codesign_identity, "Dev ID");
}

#[test]
fn cli_defaults_to_a_build() {
    let cli = Cli::parse(&args(&[])).expect("parse succeeds");
    assert!(cli.root_override.is_none());
    assert!(matches!(cli.command, CliCommand::Build));
}

#[test]
fn cli_takes_the_root_flag() {
    let cli = Cli::parse(&args(&["--root", "/some/where"])).expect("parse succeeds");
    assert_eq!(cli.root_override.as_deref(), Some("/some/where"));
    assert!(matches!(cli.command, CliCommand::Build));
}

#[test]
fn cli_ignores_unknown_arguments() {
    let cli = Cli::parse(&args(&["--frobnicate", "--root", "/r"])).expect("parse succeeds");
    assert_eq!(cli.root_override.as_deref(), Some("/r"));
}

#[test]
fn cli_root_flag_needs_a_value() {
    let err = Cli::parse(&args(&["--root"])).expect_err("trailing flag");
    assert_eq!(err, CliError::RootNeedsValue);
}

#[test]
fn cli_help_wins_over_everything() {
    let cli = Cli::parse(&args(&["flatten-icon", "--help"])).expect("parse succeeds");
    assert!(matches!(cli.command, CliCommand::Help));
    let cli = Cli::parse(&args(&["-h"])).expect("parse succeeds");
    assert!(matches!(cli.command, CliCommand::Help));
}

#[test]
fn cli_flatten_subcommand_takes_two_paths() {
    let cli = Cli::parse(&args(&["flatten-icon", "in.png", "out.png"])).expect("parse succeeds");
    match cli.command {
        CliCommand::FlattenIcon { input, output } => {
            assert_eq!(input, "in.png");
            assert_eq!(output, "out.png");
        },
        other => panic!("unexpected command: {:?}", std::mem::discriminant(&other)),
    }
    let err = Cli::parse(&args(&["flatten-icon", "only-one"])).expect_err("bad usage");
    assert_eq!(err, CliError::FlattenIconUsage);
    let err = Cli::parse(&args(&["flatten-icon", "a", "b", "c"])).expect_err("bad usage");
    assert_eq!(err, CliError::FlattenIconUsage);
}

#[test]
fn ansi_codes_follow_the_terminal_probe() {
    let on = Ansi::new(true);
    assert_eq!(on.code(AnsiColor::Red), "\x1b[0;31m");
    assert_eq!(on.code(AnsiColor::Green), "\x1b[0;32m");
    assert_eq!(on.code(AnsiColor::Yellow), "\x1b[1;33m");
    assert_eq!(on.code(AnsiColor::Blue), "\x1b[0;34m");
    assert_eq!(on.bold(), "\x1b[1m");
    assert_eq!(on.reset(), "\x1b[0m");
    let off = Ansi::new(false);
    assert_eq!(off.code(AnsiColor::Red), "");
    assert_eq!(off.bold(), "");
    assert_eq!(off.reset(), "");
}

#[test]
fn stamp_layout_is_stable() {
    assert_eq!(stamp_rel_path(StampId::WebappDeps), ".mac_build/stamps/webapp_deps.stamp");
    assert_eq!(stamp_rel_path(StampId::WebappBuild), ".mac_build/stamps/webapp_build.stamp");
    assert_eq!(stamp_rel_path(StampId::BackendDeps), ".mac_build/stamps/backend_deps.stamp");
    assert_eq!(stamp_rel_path(StampId::BackendBuild), ".mac_build/stamps/backend_build.stamp");
    assert_eq!(stamp_rel_path(StampId::SwiftBuild), ".mac_build/stamps/swift_build.stamp");
    assert_eq!(
        side_file_rel_path(SideFileId::WebappBuildEnv),
        ".mac_build/stamps/webapp_build.env"
    );
    assert_eq!(
        side_file_content(SideFileId::WebappBuildEnv),
        "VITE_API_MODE=real\nVITE_API_BASE_URL=\n"
    );
}
