use vstd::prelude::*;

use crate::errors::BuildError;
use crate::layout::{SideFileId, StampId};

verus! {

/// The tagged finalization payload of one asynchronous stage: which side
/// files and stamp to write once its process is confirmed successful.
#[derive(PartialEq, Eq, Structural, Clone, Copy, Debug)]
pub enum TaskKind {
    FrontendBuild { env_file: SideFileId, stamp_file: StampId },
    BackendBuild { stamp_file: StampId },
    SwiftBuild { stamp_file: StampId },
}

/// One live asynchronous execution: a caller-owned process handle paired
/// with the finalization to apply on success. `handle` is an opaque token
/// the caller maps to its real process.
pub struct Task {
    pub name: String,
    pub handle: u64,
    pub kind: TaskKind,
}

/// A mutation the caller performs on behalf of a confirmed-successful task,
/// in order: generated side files first, then the stamp.
#[derive(PartialEq, Eq, Structural, Clone, Copy, Debug)]
pub enum FinalizeAction {
    WriteSideFile { file: SideFileId },
    WriteStamp { stamp: StampId },
}

/// The finalization of each kind of task. A stamp write is always last, so
/// a stamp never precedes its side files.
pub open spec fn spec_finalize_actions(kind: TaskKind) -> Seq<FinalizeAction> {
    match kind {
        TaskKind::FrontendBuild { env_file, stamp_file } => seq![
            FinalizeAction::WriteSideFile { file: env_file },
            FinalizeAction::WriteStamp { stamp: stamp_file },
        ],
        TaskKind::BackendBuild { stamp_file } => seq![
            FinalizeAction::WriteStamp { stamp: stamp_file },
        ],
        TaskKind::SwiftBuild { stamp_file } => seq![
            FinalizeAction::WriteStamp { stamp: stamp_file },
        ],
    }
}

/// Owns the tasks registered during one run and resolves them strictly in
/// registration order, handing out each task's finalization only once its
/// exit is confirmed successful.
pub struct TaskCoordinator {
    pub tasks: Vec<Task>,
    pub waited: usize,
}

/// What resolving the next task does to the coordinator: on exit status 0
/// the task is consumed and its finalization handed out; on any other exit
/// the run gets the task's failure and nothing is finalized, with every
/// later task left unwaited. Meaningful only while a task is pending.
pub open spec fn spec_report(c: TaskCoordinator, status: Option<i32>) -> (TaskCoordinator, Result<
    Seq<FinalizeAction>,
    BuildError,
>) {
    if c.waited >= c.tasks@.len() {
        (c, Ok(Seq::empty()))
    } else if status == Some(0i32) {
        (
            TaskCoordinator { tasks: c.tasks, waited: (c.waited + 1) as usize },
            Ok(spec_finalize_actions(c.tasks@[c.waited as int].kind)),
        )
    } else {
        (
            c,
            Err(BuildError::TaskFailed { name: c.tasks@[c.waited as int].name, status }),
        )
    }
}

impl TaskCoordinator {
    /// A coordinator with no tasks.
    pub fn new() -> (c: TaskCoordinator)
        ensures
            c.tasks@.len() == 0,
            c.waited == 0,
    {
        TaskCoordinator { tasks: Vec::new(), waited: 0 }
    }

    /// Appends a task to the order-preserving collection.
    pub fn register(&mut self, t: Task)
        ensures
            final(self).tasks@ == old(self).tasks@.push(t),
            final(self).waited == old(self).waited,
    {
        self.tasks.push(t);
    }

    /// The next task to wait on, in registration order; `None` once every
    /// task is resolved.
    pub fn next_to_wait(&self) -> (r: Option<&Task>)
        ensures
            match r {
                Some(t) => self.waited < self.tasks@.len() && *t == self.tasks@[
                    self.waited as int
                ],
                None => self.waited >= self.tasks@.len(),
            },
    {
        if self.waited < self.tasks.len() {
            Some(&self.tasks[self.waited])
        } else {
            None
        }
    }

    /// Resolves the pending task with the exit status the caller observed.
    /// Finalization never runs before success is confirmed: a non-zero exit
    /// yields the task's failure and no actions, so a stamp is never marked
    /// fresh for a failed build.
    pub fn report_exit(&mut self, status: Option<i32>) -> (r: Result<
        Vec<FinalizeAction>,
        BuildError,
    >)
        requires
            old(self).waited < old(self).tasks@.len(),
        ensures
            ({
                let (c2, res) = spec_report(*old(self), status);
                &&& final(self).tasks@ == c2.tasks@
                &&& final(self).waited == c2.waited
                &&& match res {
                    Ok(acts) => r matches Ok(v) && v@ == acts,
                    Err(e) => r matches Err(e2) && e2 == e,
                }
            }),
    {
        let ok = match status {
            Some(code) => code == 0,
            None => false,
        };
        if ok {
            let n = self.tasks.len();
            let kind = self.tasks[self.waited].kind;
            self.waited = self.waited + 1;
            let mut acts: Vec<FinalizeAction> = Vec::new();
            match kind {
                TaskKind::FrontendBuild { env_file, stamp_file } => {
                    acts.push(FinalizeAction::WriteSideFile { file: env_file });
                    acts.push(FinalizeAction::WriteStamp { stamp: stamp_file });
                },
                TaskKind::BackendBuild { stamp_file } => {
                    acts.push(FinalizeAction::WriteStamp { stamp: stamp_file });
                },
                TaskKind::SwiftBuild { stamp_file } => {
                    acts.push(FinalizeAction::WriteStamp { stamp: stamp_file });
                },
            }
            proof {
                assert(acts@ =~= spec_finalize_actions(kind));
            }
            Ok(acts)
        } else {
            let name = self.tasks[self.waited].name.clone();
            Err(BuildError::TaskFailed { name, status })
        }
    }
}

/// Ordering under partial failure. Two tasks are registered; the first
/// (long-running) succeeds and the second (quick to fail) does not. The
/// coordinator resolves the first task and hands out its finalization — its
/// stamp is written — before it surfaces the second task's failure, because
/// wait order is registration order, not completion order; and the failure
/// consumes nothing, leaving any later sibling unwaited.
pub proof fn lemma_order_under_partial_failure(c0: TaskCoordinator, status_b: Option<i32>)
    requires
        c0.waited == 0,
        c0.tasks@.len() == 2,
        status_b != Some(0i32),
    ensures
        ({
            let (c1, r1) = spec_report(c0, Some(0i32));
            let (c2, r2) = spec_report(c1, status_b);
            &&& r1 == Ok::<Seq<FinalizeAction>, BuildError>(
                spec_finalize_actions(c0.tasks@[0].kind),
            )
            &&& c1.waited == 1
            &&& r2 == Err::<Seq<FinalizeAction>, BuildError>(
                BuildError::TaskFailed { name: c0.tasks@[1].name, status: status_b },
            )
            &&& c2.waited == 1
        }),
{
}

/// The core correctness invariant of the caching layer: resolving a task
/// with any non-zero (or signalled) exit hands out no finalization at all —
/// in particular no stamp write — whatever the task was.
pub proof fn lemma_no_finalization_without_success(c: TaskCoordinator, status: Option<i32>)
    requires
        c.waited < c.tasks@.len(),
        status != Some(0i32),
    ensures
        spec_report(c, status).1 is Err,
        spec_report(c, status).0.waited == c.waited,
{
}

} // verus!
