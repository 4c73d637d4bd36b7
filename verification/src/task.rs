//! The record that describes one archive job.

use vstd::prelude::*;
use crate::text::clone_opt;
use crate::time::now_rfc3339;

verus! {

/// Where a job stands. `Running` is the only state that has a successor.
#[derive(Clone, Copy, Debug, PartialEq, Eq, Structural)]
pub enum TaskStatus {
    Running,
    Succeeded,
    Failed,
    Cancelled,
}

/// The mathematical content of a [`Task`].
pub struct TaskView {
    pub task_id: Seq<char>,
    pub description: Option<Seq<char>>,
    pub done: bool,
    pub error: Option<Seq<char>>,
    pub progress: nat,
    pub source_hash: Option<Seq<char>>,
    pub timestamp: Seq<char>,
    pub password: Seq<char>,
    pub archive_name: Seq<char>,
    pub stop_requested: bool,
}

impl TaskView {
    /// A record is valid when its progress is a percentage that is full
    /// exactly when the job has succeeded, and a succeeded job carries no
    /// error.
    pub open spec fn wf(self) -> bool {
        &&& self.progress <= 100
        &&& self.done <==> self.progress == 100
        &&& self.done ==> self.error is None
    }

    /// The status that a stored record shows.
    pub open spec fn status(self) -> TaskStatus {
        if self.done {
            TaskStatus::Succeeded
        } else if self.error is Some {
            TaskStatus::Failed
        } else {
            TaskStatus::Running
        }
    }

    /// No transition leaves a terminal record.
    pub open spec fn is_terminal(self) -> bool {
        self.status() != TaskStatus::Running
    }

    /// The record of a job that has just been accepted.
    pub open spec fn fresh(
        task_id: Seq<char>,
        archive_name: Seq<char>,
        password: Seq<char>,
        timestamp: Seq<char>,
    ) -> TaskView {
        TaskView {
            task_id,
            description: None,
            done: false,
            error: None,
            progress: 0,
            source_hash: None,
            timestamp,
            password,
            archive_name,
            stop_requested: false,
        }
    }

    /// The record after a cancel request.
    pub open spec fn with_stop(self) -> TaskView {
        TaskView { stop_requested: true, ..self }
    }

    /// Whether a running record takes `change`: a terminal record takes
    /// none, and published progress never goes back and stays below 100,
    /// which only success brings.
    pub open spec fn accepts(self, change: TaskChangeView) -> bool {
        &&& self.status() == TaskStatus::Running
        &&& match change {
            TaskChangeView::Progress(p) => self.progress <= p < 100,
            TaskChangeView::Succeeded => true,
            TaskChangeView::Failed(_) => true,
        }
    }

    /// The record after `change`: the changed record where it is accepted,
    /// the same record where it is not.
    pub open spec fn apply(self, change: TaskChangeView) -> TaskView {
        if self.accepts(change) {
            match change {
                TaskChangeView::Progress(p) => TaskView { progress: p, ..self },
                TaskChangeView::Succeeded => TaskView { done: true, progress: 100, ..self },
                TaskChangeView::Failed(e) => TaskView { error: Some(e), ..self },
            }
        } else {
            self
        }
    }
}

/// A change that a worker asks of its own record.
pub enum TaskChange {
    /// A checkpoint publishes this percentage.
    Progress(u32),
    /// The archive was built and stored.
    Succeeded,
    /// The build failed with this description.
    Failed(String),
}

/// The mathematical content of a [`TaskChange`].
pub enum TaskChangeView {
    Progress(nat),
    Succeeded,
    Failed(Seq<char>),
}

impl View for TaskChange {
    type V = TaskChangeView;

    open spec fn view(&self) -> TaskChangeView {
        match *self {
            TaskChange::Progress(p) => TaskChangeView::Progress(p as nat),
            TaskChange::Succeeded => TaskChangeView::Succeeded,
            TaskChange::Failed(e) => TaskChangeView::Failed(e@),
        }
    }
}

/// One archive job: its identity, how far it is, and how it ended.
#[derive(Debug)]
#[allow(non_snake_case)]
pub struct Task {
    taskId: String,
    description: Option<String>,
    done: bool,
    error: Option<String>,
    progress: u32,
    sourceHash: Option<String>,
    timestamp: String,
    password: String,
    archive_name: String,
    stop_signal: bool,
}

pub open spec fn opt_view(s: Option<String>) -> Option<Seq<char>> {
    match s {
        Some(t) => Some(t@),
        None => None,
    }
}

impl View for Task {
    type V = TaskView;

    closed spec fn view(&self) -> TaskView {
        TaskView {
            task_id: self.taskId@,
            description: opt_view(self.description),
            done: self.done,
            error: opt_view(self.error),
            progress: self.progress as nat,
            source_hash: opt_view(self.sourceHash),
            timestamp: self.timestamp@,
            password: self.password@,
            archive_name: self.archive_name@,
            stop_requested: self.stop_signal,
        }
    }
}

impl Clone for Task {
    fn clone(&self) -> (copy: Task)
        ensures
            copy@ == self@,
    {
        self.duplicate()
    }
}

impl Task {
    /// Validity of the record, stated on its view.
    pub open spec fn wf(&self) -> bool {
        self@.wf()
    }

    /// A running job at progress 0, stamped with the current time.
    pub fn new(task_id: &str, archive_name: &str, password: &str) -> (task: Task)
        ensures
            task.wf(),
            task@ == TaskView::fresh(task_id@, archive_name@, password@, task@.timestamp),
    {
        Task {
            taskId: task_id.to_owned(),
            description: None,
            done: false,
            error: None,
            progress: 0,
            sourceHash: None,
            timestamp: now_rfc3339(),
            password: password.to_owned(),
            archive_name: archive_name.to_owned(),
            stop_signal: false,
        }
    }

    /// The job's identifier.
    pub fn task_id(&self) -> (id: &str)
        ensures
            id@ == self@.task_id,
    {
        self.taskId.as_str()
    }

    /// Whether the archive was built and stored.
    pub fn done(&self) -> (done: bool)
        ensures
            done == self@.done,
    {
        self.done
    }

    /// The published progress, in percent.
    pub fn progress(&self) -> (progress: u32)
        ensures
            progress == self@.progress,
    {
        self.progress
    }

    /// The cause of a failed build.
    pub fn error(&self) -> (error: &Option<String>)
        ensures
            opt_view(*error) == self@.error,
    {
        &self.error
    }

    /// When the job was accepted.
    pub fn timestamp(&self) -> (stamp: &str)
        ensures
            stamp@ == self@.timestamp,
    {
        self.timestamp.as_str()
    }

    /// The password of the archive.
    pub fn password(&self) -> (password: &str)
        ensures
            password@ == self@.password,
    {
        self.password.as_str()
    }

    /// The name that the submitter chose for the archive.
    pub fn archive_name(&self) -> (name: &str)
        ensures
            name@ == self@.archive_name,
    {
        self.archive_name.as_str()
    }

    /// Whether a stop was asked for.
    pub fn stop_requested(&self) -> (stop: bool)
        ensures
            stop == self@.stop_requested,
    {
        self.stop_signal
    }

    /// The status that the record shows: never `Cancelled`, since a
    /// cancelled job has no record.
    pub fn status(&self) -> (s: TaskStatus)
        ensures
            s == self@.status(),
            s != TaskStatus::Cancelled,
    {
        if self.done {
            TaskStatus::Succeeded
        } else if self.error.is_some() {
            TaskStatus::Failed
        } else {
            TaskStatus::Running
        }
    }

    /// Raises the cancel flag: once set it stays set, and no other field
    /// changes.
    pub fn request_stop(&mut self)
        ensures
            final(self)@ == old(self)@.with_stop(),
    {
        self.stop_signal = true;
    }

    /// Applies a worker's change where the record accepts it, and says
    /// whether it did.
    pub fn apply(&mut self, change: TaskChange) -> (applied: bool)
        ensures
            applied == old(self)@.accepts(change@),
            final(self)@ == old(self)@.apply(change@),
    {
        if self.done || self.error.is_some() {
            return false;
        }
        match change {
            TaskChange::Progress(p) => {
                if p < self.progress || p >= 100 {
                    return false;
                }
                self.progress = p;
            },
            TaskChange::Succeeded => {
                self.done = true;
                self.progress = 100;
            },
            TaskChange::Failed(e) => {
                self.error = Some(e);
            },
        }
        true
    }

    /// A copy of the record, field by field.
    pub fn duplicate(&self) -> (copy: Task)
        ensures
            copy@ == self@,
    {
        Task {
            taskId: self.taskId.clone(),
            description: clone_opt(&self.description),
            done: self.done,
            error: clone_opt(&self.error),
            progress: self.progress,
            sourceHash: clone_opt(&self.sourceHash),
            timestamp: self.timestamp.clone(),
            password: self.password.clone(),
            archive_name: self.archive_name.clone(),
            stop_signal: self.stop_signal,
        }
    }
}

} // verus!
