//! What holds of the service as a whole, stated over the effects that its
//! operations have on the registry.

use vstd::prelude::*;
use crate::archive::BuildError;
use crate::service::{fetch, fetchable, poll, stop_effect, ReadFailure, ServiceErrorView};
use crate::task::{TaskChangeView, TaskStatus, TaskView};
use crate::worker::{
    checkpoint_effect, complete_effect, progress_at, WorkerPhase, WorkerView, TOTAL_STEPS,
};

verus! {

/// One thing that can happen to a registry.
pub enum Step {
    /// A submission puts a fresh record under its identifier.
    Submit(TaskView),
    /// A cancel request for the job of this identifier.
    Stop(Seq<char>),
    /// The next checkpoint of this worker.
    Checkpoint(WorkerView),
    /// This worker records the outcome of its build.
    Complete(WorkerView, Result<(), BuildError>),
}

impl Step {
    /// The job that the step is about.
    pub open spec fn target(self) -> Seq<char> {
        match self {
            Step::Submit(t) => t.task_id,
            Step::Stop(id) => id,
            Step::Checkpoint(w) => w.task_id,
            Step::Complete(w, _) => w.task_id,
        }
    }

    /// The registry after the step.
    pub open spec fn effect(self, tasks: Map<Seq<char>, TaskView>) -> Map<Seq<char>, TaskView> {
        match self {
            Step::Submit(t) => tasks.insert(t.task_id, t),
            Step::Stop(id) => stop_effect(tasks, id),
            Step::Checkpoint(w) => checkpoint_effect(tasks, w),
            Step::Complete(w, outcome) => complete_effect(tasks, w, outcome),
        }
    }

    /// Whether the step is a submission under the identifier `id`.
    pub open spec fn submits(self, id: Seq<char>) -> bool {
        self matches Step::Submit(t) && t.task_id == id
    }
}

/// A change that a record accepts leaves it valid.
pub proof fn law_apply_keeps_valid(t: TaskView, change: TaskChangeView)
    requires
        t.wf(),
    ensures
        t.apply(change).wf(),
        t.apply(change).task_id == t.task_id,
{
}

/// The percentage of a checkpoint grows with the step, in equal parts,
/// and is below 100 for every checkpoint that publishes one.
pub proof fn law_progress_at(a: nat, b: nat)
    requires
        a <= b < TOTAL_STEPS,
    ensures
        progress_at(a) <= progress_at(b) < 100,
        progress_at(0) == 0,
        progress_at(b) * TOTAL_STEPS == 100 * b,
{
}

/// A valid record shows full progress exactly when its job has succeeded.
pub proof fn law_full_progress_is_success(t: TaskView)
    requires
        t.wf(),
    ensures
        t.progress == 100 <==> t.status() == TaskStatus::Succeeded,
        t.status() == TaskStatus::Failed <==> t.error is Some,
{
}

/// A poll right after a submission finds the job running at progress 0,
/// without an error.
pub proof fn law_poll_after_submit(
    tasks: Map<Seq<char>, TaskView>,
    id: Seq<char>,
    archive_name: Seq<char>,
    password: Seq<char>,
    timestamp: Seq<char>,
)
    ensures
        ({
            let after = Step::Submit(
                TaskView::fresh(id, archive_name, password, timestamp),
            ).effect(tasks);
            &&& poll(after, id) matches Some(p)
            &&& p.task_id == id
            &&& p.status == TaskStatus::Running
            &&& p.progress == 0
            &&& p.error is None
            &&& !p.done
        }),
{
}

/// While a job is running, no step makes its progress smaller: whatever
/// happens, a record that is still there shows at least the progress it
/// showed before. (A submission under the same identifier starts a new job
/// and is left aside.)
pub proof fn law_progress_never_decreases(
    tasks: Map<Seq<char>, TaskView>,
    step: Step,
    id: Seq<char>,
)
    requires
        tasks.contains_key(id),
        tasks[id].wf(),
        !step.submits(id),
        step.effect(tasks).contains_key(id),
    ensures
        step.effect(tasks)[id].progress >= tasks[id].progress,
        step.effect(tasks)[id].progress <= 100,
        step.effect(tasks)[id].wf(),
{
}

/// A checkpoint of a job that runs and was not asked to stop keeps the job
/// running and moves the worker one step on: it publishes the percentage
/// of its step and waits again, or, as the last checkpoint, leaves the
/// record as it is and turns to the build.
pub proof fn law_checkpoint_publishes(tasks: Map<Seq<char>, TaskView>, w: WorkerView)
    requires
        w.wf(),
        w.phase == WorkerPhase::Waiting,
        tasks.contains_key(w.task_id),
        tasks[w.task_id].status() == TaskStatus::Running,
        !tasks[w.task_id].stop_requested,
        tasks[w.task_id].progress <= progress_at(w.step),
    ensures
        ({
            let after = Step::Checkpoint(w).effect(tasks);
            let worker = w.after_checkpoint(tasks);
            &&& after.contains_key(w.task_id)
            &&& after[w.task_id] == (if w.step + 1 < TOTAL_STEPS {
                TaskView { progress: progress_at(w.step + 1), ..tasks[w.task_id] }
            } else {
                tasks[w.task_id]
            })
            &&& after[w.task_id].status() == TaskStatus::Running
            &&& worker.wf()
            &&& worker.step == w.step + 1
            &&& worker.phase == (if w.step + 1 < TOTAL_STEPS {
                WorkerPhase::Waiting
            } else {
                WorkerPhase::Building
            })
        }),
{
}

/// A cancel request that finds its job running is honoured at the next
/// checkpoint of the job's worker: after it, a poll finds nothing.
pub proof fn law_cancel_then_checkpoint(tasks: Map<Seq<char>, TaskView>, w: WorkerView)
    requires
        tasks.contains_key(w.task_id),
        tasks[w.task_id].status() == TaskStatus::Running,
        w.phase == WorkerPhase::Waiting,
    ensures
        poll(
            Step::Checkpoint(w).effect(Step::Stop(w.task_id).effect(tasks)),
            w.task_id,
        ) is None,
        w.after_checkpoint(Step::Stop(w.task_id).effect(tasks)).phase == WorkerPhase::Finished(
            TaskStatus::Cancelled,
        ),
{
}

/// A raised stop flag stays raised for as long as the record is there.
pub proof fn law_stop_stays(tasks: Map<Seq<char>, TaskView>, step: Step, id: Seq<char>)
    requires
        tasks.contains_key(id),
        tasks[id].stop_requested,
        !step.submits(id),
        step.effect(tasks).contains_key(id),
    ensures
        step.effect(tasks)[id].stop_requested,
{
}

/// A cancel request that comes after the last checkpoint is too late: the
/// worker is building, its record stays, and the outcome is recorded as if
/// nothing had been asked.
pub proof fn law_cancel_too_late(
    tasks: Map<Seq<char>, TaskView>,
    w: WorkerView,
    outcome: Result<(), BuildError>,
)
    requires
        tasks.contains_key(w.task_id),
        tasks[w.task_id].status() == TaskStatus::Running,
        w.phase == WorkerPhase::Building,
    ensures
        ({
            let stopped = Step::Stop(w.task_id).effect(tasks);
            let after = Step::Complete(w, outcome).effect(stopped);
            &&& Step::Checkpoint(w).effect(stopped) == stopped
            &&& after.contains_key(w.task_id)
            &&& after[w.task_id].status() == Step::Complete(w, outcome).effect(
                tasks,
            )[w.task_id].status()
            &&& after[w.task_id].status() == (if outcome is Ok {
                TaskStatus::Succeeded
            } else {
                TaskStatus::Failed
            })
        }),
{
}

/// A terminal record is final: no cancel request, checkpoint or outcome
/// removes it or changes its status, progress or error.
pub proof fn law_terminal_is_final(tasks: Map<Seq<char>, TaskView>, step: Step, id: Seq<char>)
    requires
        tasks.contains_key(id),
        tasks[id].is_terminal(),
        !step.submits(id),
    ensures
        step.effect(tasks).contains_key(id),
        step.effect(tasks)[id].status() == tasks[id].status(),
        step.effect(tasks)[id].progress == tasks[id].progress,
        step.effect(tasks)[id].error == tasks[id].error,
        step.effect(tasks)[id].done == tasks[id].done,
{
}

/// A cancel request never changes what a poll tells.
pub proof fn law_cancel_keeps_poll(tasks: Map<Seq<char>, TaskView>, id: Seq<char>, other: Seq<char>)
    ensures
        poll(Step::Stop(id).effect(tasks), other) == poll(tasks, other),
{
}

/// A second cancel request changes nothing.
pub proof fn law_cancel_twice(tasks: Map<Seq<char>, TaskView>, id: Seq<char>)
    ensures
        stop_effect(stop_effect(tasks, id), id) == stop_effect(tasks, id),
{
    let once = stop_effect(tasks, id);
    assert(stop_effect(once, id) =~= once);
}

/// A job reaches full progress with success, and success shows full
/// progress.
pub proof fn law_success_is_full(
    tasks: Map<Seq<char>, TaskView>,
    w: WorkerView,
    outcome: Result<(), BuildError>,
)
    requires
        tasks.contains_key(w.task_id),
        tasks[w.task_id].status() == TaskStatus::Running,
        w.phase == WorkerPhase::Building,
    ensures
        ({
            let after = Step::Complete(w, outcome).effect(tasks)[w.task_id];
            &&& outcome is Ok ==> after.status() == TaskStatus::Succeeded && after.progress == 100
                && after.error is None
            &&& outcome is Err ==> after.status() == TaskStatus::Failed && after.error is Some
                && after.progress == tasks[w.task_id].progress
        }),
{
}

/// Only a succeeded job has an archive to fetch: for an unknown job and
/// for one that is running or has failed, the fetch is `NotFound`,
/// whatever lies in the store.
pub proof fn law_fetch_needs_success(
    tasks: Map<Seq<char>, TaskView>,
    id: Seq<char>,
    stored: Result<Vec<u8>, ReadFailure>,
)
    requires
        !fetchable(tasks, id),
    ensures
        fetch(tasks, id, stored) matches Err(ServiceErrorView::NotFound(_)),
{
}

/// A succeeded job hands over exactly the stored bytes, under the name
/// that the submitter chose.
pub proof fn law_fetch_of_success(
    tasks: Map<Seq<char>, TaskView>,
    id: Seq<char>,
    bytes: Vec<u8>,
)
    requires
        fetchable(tasks, id),
    ensures
        fetch(tasks, id, Ok(bytes)) == Ok::<(Seq<u8>, Seq<char>), ServiceErrorView>(
            (bytes@, tasks[id].archive_name),
        ),
{
}

/// Jobs are independent: a step about one job leaves every other job's
/// record as it was, there or not there.
pub proof fn law_other_jobs_untouched(
    tasks: Map<Seq<char>, TaskView>,
    step: Step,
    other: Seq<char>,
)
    requires
        step.target() != other,
    ensures
        step.effect(tasks).contains_key(other) == tasks.contains_key(other),
        tasks.contains_key(other) ==> step.effect(tasks)[other] == tasks[other],
        poll(step.effect(tasks), other) == poll(tasks, other),
{
}

} // verus!
