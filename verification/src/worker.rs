//! The worker of one job: a fixed number of timed checkpoints, at each of
//! which a cancel request is honoured, then the build and its outcome.
//!
//! The worker never waits by itself. Each call decides one step and answers
//! with what its driver has to do next, so that the decisions are the same
//! whatever runs them.

use vstd::prelude::*;
use vstd::string::*;
use crate::archive::{
    create_zip_with_password, entries_of, has_duplicate, has_long_name, is_archive_of,
    is_long_name_refusal, long_name_text, seals_of, BuildError, BuildErrorKind, FileInfo,
};
use crate::registry::TaskRegistry;
use crate::task::{TaskChange, TaskChangeView, TaskStatus, TaskView};
use crate::text::join2;

verus! {

/// The number of checkpoints of a job.
pub const TOTAL_STEPS: u32 = 10;

/// The seconds that pass before each checkpoint.
pub const STEP_SECONDS: u64 = 6;

/// The percentage that the checkpoint `step` publishes.
pub open spec fn progress_at(step: nat) -> nat {
    step * 100 / (TOTAL_STEPS as nat)
}

/// What the driver of a worker has to do next.
#[derive(Clone, Copy, Debug, PartialEq, Eq, Structural)]
pub enum WorkerAction {
    /// Wait this many seconds, then call [`Worker::checkpoint`].
    Sleep(u64),
    /// Call [`Worker::build`], store the archive, then call
    /// [`Worker::complete`].
    Build,
    /// The worker is finished.
    Exit,
}

/// Where a worker stands.
#[derive(Clone, Copy, Debug, PartialEq, Eq, Structural)]
pub enum WorkerPhase {
    /// Checkpoints are still due.
    Waiting,
    /// All checkpoints passed; the outcome of the build is due.
    Building,
    /// Nothing is due any more: the job ended in this status.
    Finished(TaskStatus),
}

/// The mathematical content of a [`Worker`].
pub struct WorkerView {
    pub task_id: Seq<char>,
    pub file_path: Seq<char>,
    pub password: Seq<char>,
    pub files: Seq<FileInfo>,
    pub step: nat,
    pub phase: WorkerPhase,
}

impl WorkerView {
    /// A worker has passed at most all its checkpoints, builds only after
    /// the last, and finishes in a terminal status.
    pub open spec fn wf(self) -> bool {
        &&& self.step <= TOTAL_STEPS
        &&& self.phase == WorkerPhase::Waiting ==> self.step < TOTAL_STEPS
        &&& self.phase == WorkerPhase::Building ==> self.step == TOTAL_STEPS
        &&& self.phase != WorkerPhase::Finished(TaskStatus::Running)
    }

    /// What is due from the driver in this state.
    pub open spec fn pending(self) -> WorkerAction {
        match self.phase {
            WorkerPhase::Waiting => WorkerAction::Sleep(STEP_SECONDS),
            WorkerPhase::Building => WorkerAction::Build,
            WorkerPhase::Finished(_) => WorkerAction::Exit,
        }
    }

    /// Whether the next checkpoint ends the job: its record is there and
    /// either asks for a stop or is no longer running.
    pub open spec fn stops_at_checkpoint(self, tasks: Map<Seq<char>, TaskView>) -> bool {
        &&& self.phase == WorkerPhase::Waiting
        &&& tasks.contains_key(self.task_id)
        &&& (tasks[self.task_id].stop_requested || tasks[self.task_id].is_terminal())
    }

    /// The worker after its next checkpoint.
    pub open spec fn after_checkpoint(self, tasks: Map<Seq<char>, TaskView>) -> WorkerView {
        if self.phase != WorkerPhase::Waiting {
            self
        } else if self.stops_at_checkpoint(tasks) {
            if tasks[self.task_id].is_terminal() {
                WorkerView { phase: WorkerPhase::Finished(tasks[self.task_id].status()), ..self }
            } else {
                WorkerView { phase: WorkerPhase::Finished(TaskStatus::Cancelled), ..self }
            }
        } else if self.step + 1 < TOTAL_STEPS {
            WorkerView { step: self.step + 1, ..self }
        } else {
            WorkerView { step: self.step + 1, phase: WorkerPhase::Building, ..self }
        }
    }

    /// The worker after the outcome of its build was recorded.
    pub open spec fn after_complete(self, outcome: Result<(), BuildError>) -> WorkerView {
        if self.phase == WorkerPhase::Building {
            WorkerView { phase: WorkerPhase::Finished(outcome_status(outcome)), ..self }
        } else {
            self
        }
    }
}

/// The registry after the next checkpoint of `w`. A running record that
/// asks for a stop is taken out; a running record that does not gets the
/// progress of the checkpoint, but for the last checkpoint, which publishes
/// nothing: full progress comes with success. A terminal record and the
/// records of other jobs stay as they are.
pub open spec fn checkpoint_effect(tasks: Map<Seq<char>, TaskView>, w: WorkerView) -> Map<
    Seq<char>,
    TaskView,
> {
    if w.phase != WorkerPhase::Waiting || !tasks.contains_key(w.task_id) {
        tasks
    } else if tasks[w.task_id].is_terminal() {
        tasks
    } else if tasks[w.task_id].stop_requested {
        tasks.remove(w.task_id)
    } else if w.step + 1 < TOTAL_STEPS {
        tasks.insert(
            w.task_id,
            tasks[w.task_id].apply(TaskChangeView::Progress(progress_at(w.step + 1))),
        )
    } else {
        tasks
    }
}

/// The text of the error that a failed build leaves in the record.
pub open spec fn failure_text(detail: Seq<char>) -> Seq<char> {
    "Failed to create archive: "@ + detail
}

/// The status in which a build with this outcome ends the job.
pub open spec fn outcome_status(outcome: Result<(), BuildError>) -> TaskStatus {
    match outcome {
        Ok(_) => TaskStatus::Succeeded,
        Err(_) => TaskStatus::Failed,
    }
}

/// The change that the outcome of a build asks of the record.
pub open spec fn outcome_change(outcome: Result<(), BuildError>) -> TaskChangeView {
    match outcome {
        Ok(_) => TaskChangeView::Succeeded,
        Err(e) => TaskChangeView::Failed(failure_text(e.detail@)),
    }
}

/// The registry after `w` recorded the outcome of its build: a running
/// record becomes terminal, and nothing else changes.
pub open spec fn complete_effect(
    tasks: Map<Seq<char>, TaskView>,
    w: WorkerView,
    outcome: Result<(), BuildError>,
) -> Map<Seq<char>, TaskView> {
    if w.phase == WorkerPhase::Building && tasks.contains_key(w.task_id) {
        tasks.insert(w.task_id, tasks[w.task_id].apply(outcome_change(outcome)))
    } else {
        tasks
    }
}

/// The worker of one job. It owns what the build needs: the files, the
/// password and the place where the archive is to be stored.
pub struct Worker {
    task_id: String,
    file_path: String,
    password: String,
    files: Vec<FileInfo>,
    step: u32,
    phase: WorkerPhase,
}

impl View for Worker {
    type V = WorkerView;

    closed spec fn view(&self) -> WorkerView {
        WorkerView {
            task_id: self.task_id@,
            file_path: self.file_path@,
            password: self.password@,
            files: self.files@,
            step: self.step as nat,
            phase: self.phase,
        }
    }
}

impl Worker {
    /// Validity of the worker, stated on its view.
    pub open spec fn wf(&self) -> bool {
        self@.wf()
    }

    /// A worker before its first checkpoint.
    pub fn new(task_id: String, file_path: String, password: String, files: Vec<FileInfo>) -> (w:
        Worker)
        ensures
            w.wf(),
            w@ == (WorkerView {
                task_id: task_id@,
                file_path: file_path@,
                password: password@,
                files: files@,
                step: 0,
                phase: WorkerPhase::Waiting,
            }),
    {
        Worker { task_id, file_path, password, files, step: 0, phase: WorkerPhase::Waiting }
    }

    /// The identifier of the job.
    pub fn task_id(&self) -> (id: &str)
        ensures
            id@ == self@.task_id,
    {
        self.task_id.as_str()
    }

    /// Where the archive is to be stored.
    pub fn file_path(&self) -> (path: &str)
        ensures
            path@ == self@.file_path,
    {
        self.file_path.as_str()
    }

    /// The number of checkpoints passed.
    pub fn step(&self) -> (step: u32)
        ensures
            step == self@.step,
    {
        self.step
    }

    /// Where the worker stands.
    pub fn phase(&self) -> (phase: WorkerPhase)
        ensures
            phase == self@.phase,
    {
        self.phase
    }

    /// What is due from the driver.
    pub fn pending(&self) -> (action: WorkerAction)
        ensures
            action == self@.pending(),
    {
        match self.phase {
            WorkerPhase::Waiting => WorkerAction::Sleep(STEP_SECONDS),
            WorkerPhase::Building => WorkerAction::Build,
            WorkerPhase::Finished(_) => WorkerAction::Exit,
        }
    }

    /// One checkpoint, to be called when the wait before it is over. A stop
    /// request is honoured here and nowhere else: the record is removed and
    /// the worker ends. Otherwise the worker goes on: it publishes the
    /// progress of the checkpoint and waits again, or, at the last
    /// checkpoint, turns to the build.
    pub fn checkpoint(&mut self, tasks: &mut TaskRegistry) -> (action: WorkerAction)
        requires
            old(self).wf(),
            old(tasks).wf(),
        ensures
            final(self).wf(),
            final(tasks).wf(),
            final(self)@ == old(self)@.after_checkpoint(old(tasks)@),
            final(tasks)@ == checkpoint_effect(old(tasks)@, old(self)@),
            action == final(self)@.pending(),
    {
        match self.phase {
            WorkerPhase::Waiting => {},
            _ => {
                return self.pending();
            },
        }
        let state = match tasks.get(self.task_id.as_str()) {
            Some(t) => Some((t.status(), t.stop_requested())),
            None => None,
        };
        match state {
            Some((status, stop)) => {
                if status != TaskStatus::Running {
                    self.phase = WorkerPhase::Finished(status);
                    return WorkerAction::Exit;
                }
                if stop {
                    tasks.remove(self.task_id.as_str());
                    self.phase = WorkerPhase::Finished(TaskStatus::Cancelled);
                    return WorkerAction::Exit;
                }
            },
            None => {},
        }
        self.step = self.step + 1;
        if self.step < TOTAL_STEPS {
            let progress: u32 = self.step * 100 / TOTAL_STEPS;
            tasks.change(self.task_id.as_str(), TaskChange::Progress(progress));
            WorkerAction::Sleep(STEP_SECONDS)
        } else {
            self.phase = WorkerPhase::Building;
            WorkerAction::Build
        }
    }

    /// Builds the archive of the job's files under the job's password:
    /// the bytes are an archive of exactly these files, in their order,
    /// each entry opened under this password. A name that is too long is
    /// refused with `NameTooLong`, and a repeated name fails the build;
    /// beyond that, whether it succeeds is the archive writer's to decide.
    pub fn build(&self) -> (r: Result<Vec<u8>, BuildError>)
        ensures
            has_long_name(entries_of(self@.files)) <==> is_long_name_refusal(r),
            r matches Err(e) ==> (e.kind == BuildErrorKind::NameTooLong ==> e.detail@
                == long_name_text()),
            has_duplicate(entries_of(self@.files)) ==> r is Err,
            r matches Ok(bytes) ==> is_archive_of(
                bytes@,
                entries_of(self@.files),
                seals_of(self@.files.len(), self@.password),
            ),
    {
        let mut copy: Vec<FileInfo> = Vec::new();
        let mut i: usize = 0;
        while i < self.files.len()
            invariant
                i <= self.files.len(),
                copy@.len() == i,
                forall|k: int|
                    0 <= k < i ==> (#[trigger] copy@[k]).filename@ == self.files@[k].filename@
                        && copy@[k].content@ == self.files@[k].content@,
            decreases self.files.len() - i,
        {
            let f = &self.files[i];
            copy.push(FileInfo { filename: f.filename.clone(), content: f.content.clone() });
            i += 1;
        }
        proof {
            assert(entries_of(copy@) =~= entries_of(self.files@));
        }
        create_zip_with_password(copy, self.password.as_str())
    }

    /// Records how the build and the storing of the archive ended: success
    /// makes the record `Succeeded` at full progress, failure makes it
    /// `Failed` with the cause. A record that is gone or already terminal
    /// is left alone.
    pub fn complete(&mut self, tasks: &mut TaskRegistry, outcome: Result<(), BuildError>)
        requires
            old(self).wf(),
            old(tasks).wf(),
        ensures
            final(self).wf(),
            final(tasks).wf(),
            final(self)@ == old(self)@.after_complete(outcome),
            final(tasks)@ == complete_effect(old(tasks)@, old(self)@, outcome),
    {
        match self.phase {
            WorkerPhase::Building => {},
            _ => {
                return ;
            },
        }
        let (change, status) = match outcome {
            Ok(_) => (TaskChange::Succeeded, TaskStatus::Succeeded),
            Err(e) => (
                TaskChange::Failed(join2("Failed to create archive: ", e.detail.as_str())),
                TaskStatus::Failed,
            ),
        };
        tasks.change(self.task_id.as_str(), change);
        self.phase = WorkerPhase::Finished(status);
    }
}

} // verus!
