use macbuild::bundle::{assemble_plan, build_app_icon, icon_candidate_names, icon_fallback_needed,
    icon_result, icon_sizes, info_plist_content, is_blank, pick_icon_source, pkg_info_content,
    AssembleObs, AssembleStep, IconObs, IconStep};
use macbuild::config::Config;
use macbuild::errors::BuildError;

fn widget_config() -> Config {
    Config {
        app_name: String::from("Widget"),
        bundle_id: String::from("com.x.widget"),
        app_version: String::from("2.3.0"),
        build_number: String::from("7"),
        clean: false,
        force_frontend: false,
        force_backend: false,
        force_swift: false,
        skip_frontend: false,
        skip_backend: false,
        skip_swift: false,
        dev_mode: false,
        verbose: false,
        dry_run: false,
        codesign_identity: String::new(),
    }
}

fn all_present() -> AssembleObs {
    AssembleObs {
        wrapper_bin_present: true,
        backend_product_present: true,
        webapp_dist_present: true,
    }
}

#[test]
fn metadata_holds_the_four_configured_values() {
    let plist = info_plist_content(&widget_config(), false);
    assert!(plist.contains("<key>CFBundleName</key>\n  <string>Widget</string>"));
    assert!(plist.contains("<key>CFBundleDisplayName</key>\n  <string>Widget</string>"));
    assert!(plist.contains("<key>CFBundleIdentifier</key>\n  <string>com.x.widget</string>"));
    assert!(plist.contains("<key>CFBundleExecutable</key>\n  <string>Widget</string>"));
    assert!(plist.contains("<key>CFBundleShortVersionString</key>\n  <string>2.3.0</string>"));
    assert!(plist.contains("<key>CFBundleVersion</key>\n  <string>7</string>"));
    assert!(plist.contains("<key>CFBundlePackageType</key>\n  <string>APPL</string>"));
}

#[test]
fn metadata_references_the_icon_only_on_success() {
    let with_icon = info_plist_content(&widget_config(), true);
    assert!(with_icon.contains("<key>CFBundleIconFile</key>\n  <string>appicon</string>"));
    let without_icon = info_plist_content(&widget_config(), false);
    assert!(!without_icon.contains("CFBundleIconFile"));
}

#[test]
fn package_marker_is_the_fixed_four_byte_constant() {
    assert_eq!(pkg_info_content(), b"APPL????".to_vec());
}

#[test]
fn assembly_checks_artifacts_in_order() {
    let cfg = widget_config();
    let mut obs = all_present();
    obs.wrapper_bin_present = false;
    match assemble_plan(&cfg, &obs).expect_err("wrapper missing") {
        BuildError::MissingArtifact { stage } => assert_eq!(stage, "wrapper"),
        other => panic!("unexpected error: {:?}", other),
    }
    let mut obs = all_present();
    obs.backend_product_present = false;
    match assemble_plan(&cfg, &obs).expect_err("backend missing") {
        BuildError::MissingArtifact { stage } => assert_eq!(stage, "backend"),
        other => panic!("unexpected error: {:?}", other),
    }
    let mut obs = all_present();
    obs.webapp_dist_present = false;
    match assemble_plan(&cfg, &obs).expect_err("frontend missing") {
        BuildError::MissingArtifact { stage } => assert_eq!(stage, "frontend"),
        other => panic!("unexpected error: {:?}", other),
    }
}

#[test]
fn assembly_steps_run_in_the_fixed_order() {
    let plan = assemble_plan(&widget_config(), &all_present()).expect("all artifacts present");
    assert_eq!(
        plan,
        vec![
            AssembleStep::EnsureBundleDirs,
            AssembleStep::CopyWrapperExecutable,
            AssembleStep::MirrorBackend,
            AssembleStep::MirrorFrontend,
            AssembleStep::BuildIcon,
            AssembleStep::WriteInfoPlist,
            AssembleStep::WritePkgInfo,
            AssembleStep::TouchBundle,
        ]
    );
}

#[test]
fn signing_runs_only_with_an_identity() {
    let mut cfg = widget_config();
    cfg.codesign_identity = String::from("Developer ID Application: Example");
    let plan = assemble_plan(&cfg, &all_present()).expect("all artifacts present");
    assert_eq!(plan.last(), Some(&AssembleStep::Codesign));
    cfg.codesign_identity = String::from("   ");
    let plan = assemble_plan(&cfg, &all_present()).expect("all artifacts present");
    assert!(!plan.contains(&AssembleStep::Codesign));
}

#[test]
fn blank_identities_are_unset() {
    assert!(is_blank(&String::new()));
    assert!(is_blank(&String::from(" \t\n")));
    assert!(!is_blank(&String::from(" x ")));
}

#[test]
fn icon_candidates_are_tried_in_preference_order() {
    let names = icon_candidate_names();
    assert_eq!(
        names,
        vec!["favicon-512.png", "apple-touch-icon.png", "favicon-256.png"]
    );
    assert_eq!(pick_icon_source(&vec![false, true, true]), Some(1));
    assert_eq!(pick_icon_source(&vec![false, false, false]), None);
}

#[test]
fn iconset_covers_all_ten_entries() {
    let sizes = icon_sizes();
    assert_eq!(sizes.len(), 10);
    assert_eq!(sizes[0], (16, "icon_16x16.png"));
    assert_eq!(sizes[9], (1024, "icon_512x512@2x.png"));
}

#[test]
fn icon_pipeline_plans_for_the_first_candidate() {
    let obs = IconObs {
        source_dir_present: true,
        candidates_present: vec![false, true, false],
        iconutil_found: true,
    };
    let steps = build_app_icon(&obs).expect("a candidate exists");
    assert_eq!(steps[0], IconStep::FlattenSource { candidate: 1 });
    assert_eq!(steps[1], IconStep::ResetIconset);
    assert_eq!(steps.last(), Some(&IconStep::ConvertIconset));
    let resizes = steps
        .iter()
        .filter(|s| matches!(s, IconStep::ResizeIcon { .. }))
        .count();
    assert_eq!(resizes, 10);
}

#[test]
fn icon_generation_degrades_without_sources() {
    let no_dir = IconObs {
        source_dir_present: false,
        candidates_present: vec![true, true, true],
        iconutil_found: true,
    };
    assert!(build_app_icon(&no_dir).is_none());
    let no_candidate = IconObs {
        source_dir_present: true,
        candidates_present: vec![false, false, false],
        iconutil_found: true,
    };
    assert!(build_app_icon(&no_candidate).is_none());
}

#[test]
fn icon_outcome_follows_the_compiled_file() {
    assert!(icon_result(Some(1024)));
    assert!(!icon_result(Some(0)));
    assert!(!icon_result(None));
    assert!(icon_fallback_needed(None));
    assert!(icon_fallback_needed(Some(0)));
    assert!(!icon_fallback_needed(Some(10)));
}
