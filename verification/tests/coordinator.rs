use macbuild::coordinator::{FinalizeAction, Task, TaskCoordinator, TaskKind};
use macbuild::errors::BuildError;
use macbuild::layout::{SideFileId, StampId};

fn three_task_coordinator() -> TaskCoordinator {
    let mut c = TaskCoordinator::new();
    c.register(Task {
        name: String::from("frontend build"),
        handle: 1,
        kind: TaskKind::FrontendBuild {
            env_file: SideFileId::WebappBuildEnv,
            stamp_file: StampId::WebappBuild,
        },
    });
    c.register(Task {
        name: String::from("backend build"),
        handle: 2,
        kind: TaskKind::BackendBuild { stamp_file: StampId::BackendBuild },
    });
    c.register(Task {
        name: String::from("swift build"),
        handle: 3,
        kind: TaskKind::SwiftBuild { stamp_file: StampId::SwiftBuild },
    });
    c
}

#[test]
fn waits_in_registration_order() {
    let c = three_task_coordinator();
    let first = c.next_to_wait().expect("a task is pending");
    assert_eq!(first.handle, 1);
    assert_eq!(first.name, "frontend build");
}

#[test]
fn success_hands_out_side_files_before_stamp() {
    let mut c = three_task_coordinator();
    let acts = c.report_exit(Some(0)).expect("task succeeded");
    assert_eq!(
        acts,
        vec![
            FinalizeAction::WriteSideFile { file: SideFileId::WebappBuildEnv },
            FinalizeAction::WriteStamp { stamp: StampId::WebappBuild },
        ]
    );
    let second = c.next_to_wait().expect("a task is pending");
    assert_eq!(second.handle, 2);
}

#[test]
fn first_task_finalized_before_second_failure_surfaces() {
    // The first (long-running) task succeeds, the second fails quickly:
    // the first task's stamp write is handed out before the failure.
    let mut c = three_task_coordinator();
    let acts = c.report_exit(Some(0)).expect("first task succeeded");
    assert!(acts.contains(&FinalizeAction::WriteStamp { stamp: StampId::WebappBuild }));
    let err = c.report_exit(Some(2)).expect_err("second task failed");
    match err {
        BuildError::TaskFailed { name, status } => {
            assert_eq!(name, "backend build");
            assert_eq!(status, Some(2));
        },
        other => panic!("unexpected error: {:?}", other),
    }
    // The failure consumed nothing: the failed task is still the next one,
    // and the third was never waited on.
    let pending = c.next_to_wait().expect("the run aborted mid-wait");
    assert_eq!(pending.handle, 2);
}

#[test]
fn failure_hands_out_no_finalization() {
    let mut c = three_task_coordinator();
    let err = c.report_exit(Some(1)).expect_err("task failed");
    match err {
        BuildError::TaskFailed { name, status } => {
            assert_eq!(name, "frontend build");
            assert_eq!(status, Some(1));
        },
        other => panic!("unexpected error: {:?}", other),
    }
}

#[test]
fn signal_exit_is_a_failure() {
    let mut c = three_task_coordinator();
    let err = c.report_exit(None).expect_err("signalled task failed");
    match err {
        BuildError::TaskFailed { status, .. } => assert_eq!(status, None),
        other => panic!("unexpected error: {:?}", other),
    }
}

#[test]
fn swift_task_stamps_on_success() {
    let mut c = TaskCoordinator::new();
    c.register(Task {
        name: String::from("swift build"),
        handle: 9,
        kind: TaskKind::SwiftBuild { stamp_file: StampId::SwiftBuild },
    });
    let acts = c.report_exit(Some(0)).expect("task succeeded");
    assert_eq!(acts, vec![FinalizeAction::WriteStamp { stamp: StampId::SwiftBuild }]);
    assert!(c.next_to_wait().is_none());
}
