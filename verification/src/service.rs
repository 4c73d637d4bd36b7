//! The orchestration service: submit, poll, cancel and fetch, over one
//! registry of job records.

use vstd::prelude::*;
use vstd::string::*;
use crate::archive::FileInfo;
use crate::ident::{generate_random_password, is_password, is_task_id, new_task_id, PASSWORD_LENGTH};
use crate::registry::TaskRegistry;
use crate::task::{Task, TaskStatus, TaskView};
use crate::text::{clone_opt, join2};
use crate::worker::{Worker, WorkerPhase, WorkerView};

verus! {

/// Why an operation of the service was refused.
#[derive(Debug)]
pub enum ServiceError {
    /// No job answers to the identifier, or the job has no archive.
    NotFound(String),
    /// Something failed that the caller could not have foreseen.
    Internal(String),
}

/// The mathematical content of a [`ServiceError`].
pub enum ServiceErrorView {
    NotFound(Seq<char>),
    Internal(Seq<char>),
}

impl View for ServiceError {
    type V = ServiceErrorView;

    open spec fn view(&self) -> ServiceErrorView {
        match *self {
            ServiceError::NotFound(m) => ServiceErrorView::NotFound(m@),
            ServiceError::Internal(m) => ServiceErrorView::Internal(m@),
        }
    }
}

/// A submission: the name of the archive and the files to put into it.
#[derive(Debug)]
pub struct EnqueueTaskRequest {
    pub archive_name: String,
    pub files: Vec<FileInfo>,
}

/// An accepted submission: the identifier to poll with, and the worker that
/// is to be driven for the job.
pub struct Enqueued {
    pub task_id: String,
    pub worker: Worker,
}

/// What a poll tells of one job. The password is not part of it.
#[derive(Debug)]
pub struct TaskProgress {
    pub task_id: String,
    pub status: TaskStatus,
    pub done: bool,
    pub progress: u32,
    pub error: Option<String>,
    pub timestamp: String,
    pub archive_name: String,
}

/// The mathematical content of a [`TaskProgress`].
pub struct TaskProgressView {
    pub task_id: Seq<char>,
    pub status: TaskStatus,
    pub done: bool,
    pub progress: nat,
    pub error: Option<Seq<char>>,
    pub timestamp: Seq<char>,
    pub archive_name: Seq<char>,
}

impl View for TaskProgress {
    type V = TaskProgressView;

    open spec fn view(&self) -> TaskProgressView {
        TaskProgressView {
            task_id: self.task_id@,
            status: self.status,
            done: self.done,
            progress: self.progress as nat,
            error: crate::task::opt_view(self.error),
            timestamp: self.timestamp@,
            archive_name: self.archive_name@,
        }
    }
}

/// What a poll tells of the record `t`.
pub open spec fn progress_of(t: TaskView) -> TaskProgressView {
    TaskProgressView {
        task_id: t.task_id,
        status: t.status(),
        done: t.done,
        progress: t.progress,
        error: t.error,
        timestamp: t.timestamp,
        archive_name: t.archive_name,
    }
}

/// The answer to a cancel request that found its job.
#[derive(Debug)]
pub struct StopAck {
    pub status: String,
}

/// A finished archive and the name that the submitter chose for it.
#[derive(Debug)]
pub struct ArchiveResponse {
    pub archive: Vec<u8>,
    pub archive_name: String,
}

/// Why the stored archive of a job could not be handed over.
#[derive(Debug)]
pub enum ReadFailure {
    /// The file could not be opened.
    Missing(String),
    /// The file was opened and could not be read to its end.
    Unreadable(String),
}

/// The place of the archive of job `task_id` under the directory `root`.
pub open spec fn file_path_of(root: Seq<char>, task_id: Seq<char>) -> Seq<char> {
    root + "/"@ + task_id + ".zip"@
}

/// The answer to a poll for `id`.
pub open spec fn poll(tasks: Map<Seq<char>, TaskView>, id: Seq<char>) -> Option<TaskProgressView> {
    if tasks.contains_key(id) {
        Some(progress_of(tasks[id]))
    } else {
        None
    }
}

/// The registry after a cancel request for `id`.
pub open spec fn stop_effect(tasks: Map<Seq<char>, TaskView>, id: Seq<char>) -> Map<
    Seq<char>,
    TaskView,
> {
    if tasks.contains_key(id) {
        tasks.insert(id, tasks[id].with_stop())
    } else {
        tasks
    }
}

/// Whether the archive of job `id` may be fetched.
pub open spec fn fetchable(tasks: Map<Seq<char>, TaskView>, id: Seq<char>) -> bool {
    tasks.contains_key(id) && tasks[id].status() == TaskStatus::Succeeded
}

/// The answer to a fetch for `id`, given what reading the stored archive
/// brought.
pub open spec fn fetch(
    tasks: Map<Seq<char>, TaskView>,
    id: Seq<char>,
    stored: Result<Vec<u8>, ReadFailure>,
) -> Result<(Seq<u8>, Seq<char>), ServiceErrorView> {
    if !tasks.contains_key(id) {
        Err(ServiceErrorView::NotFound("Task not found"@))
    } else if tasks[id].status() != TaskStatus::Succeeded {
        Err(ServiceErrorView::NotFound("Archive not found"@))
    } else {
        match stored {
            Ok(bytes) => Ok((bytes@, tasks[id].archive_name)),
            Err(ReadFailure::Missing(d)) => Err(
                ServiceErrorView::NotFound("File not found: "@ + d@),
            ),
            Err(ReadFailure::Unreadable(d)) => Err(
                ServiceErrorView::Internal("Failed to read file: "@ + d@),
            ),
        }
    }
}

/// The service: the registry of jobs and the directory of their archives.
pub struct TaskServiceImpl {
    pub tasks: TaskRegistry,
    pub archive_path: String,
}

impl Default for TaskServiceImpl {
    /// A service without jobs and without a directory.
    fn default() -> (svc: TaskServiceImpl)
        ensures
            svc.wf(),
            svc.archive_path@ == Seq::<char>::empty(),
            svc.tasks@ == Map::<Seq<char>, TaskView>::empty(),
    {
        TaskServiceImpl { tasks: TaskRegistry::new(), archive_path: String::new() }
    }
}

impl TaskServiceImpl {
    /// Validity: that of the registry.
    pub open spec fn wf(&self) -> bool {
        self.tasks.wf()
    }

    /// A service without jobs that stores its archives under
    /// `archive_path`.
    pub fn new(archive_path: &str) -> (svc: TaskServiceImpl)
        ensures
            svc.wf(),
            svc.archive_path@ == archive_path@,
            svc.tasks@ == Map::<Seq<char>, TaskView>::empty(),
    {
        TaskServiceImpl { tasks: TaskRegistry::new(), archive_path: archive_path.to_owned() }
    }

    /// Where the archive of job `task_id` is stored.
    pub fn get_file_path(&self, task_id: &str) -> (path: String)
        ensures
            path@ == file_path_of(self.archive_path@, task_id@),
    {
        let mut path = self.archive_path.clone();
        path.append("/");
        path.append(task_id);
        path.append(".zip");
        path
    }

    /// Accepts a submission: a fresh identifier and password, a running
    /// record at progress 0 in the registry, and the worker for the job.
    /// Nothing is awaited: the worker has not taken a step yet.
    pub fn enqueue_task(&mut self, request: EnqueueTaskRequest) -> (accepted: Enqueued)
        requires
            old(self).wf(),
        ensures
            final(self).wf(),
            final(self).archive_path@ == old(self).archive_path@,
            is_task_id(accepted.task_id@),
            is_password(accepted.worker@.password, PASSWORD_LENGTH as nat),
            final(self).tasks@ == old(self).tasks@.insert(
                accepted.task_id@,
                final(self).tasks@[accepted.task_id@],
            ),
            final(self).tasks@[accepted.task_id@] == TaskView::fresh(
                accepted.task_id@,
                request.archive_name@,
                accepted.worker@.password,
                final(self).tasks@[accepted.task_id@].timestamp,
            ),
            accepted.worker.wf(),
            accepted.worker@ == (WorkerView {
                task_id: accepted.task_id@,
                file_path: file_path_of(old(self).archive_path@, accepted.task_id@),
                password: accepted.worker@.password,
                files: request.files@,
                step: 0,
                phase: WorkerPhase::Waiting,
            }),
    {
        let task_id = new_task_id();
        let file_path = self.get_file_path(task_id.as_str());
        let password = generate_random_password();
        let task = Task::new(task_id.as_str(), request.archive_name.as_str(), password.as_str());
        self.tasks.insert(task);
        let worker = Worker::new(task_id.clone(), file_path, password, request.files);
        Enqueued { task_id, worker }
    }

    /// What the registry tells of job `task_id`, or `NotFound`.
    pub fn get_task_progress(&self, task_id: &str) -> (r: Result<TaskProgress, ServiceError>)
        requires
            self.wf(),
        ensures
            match r {
                Ok(p) => poll(self.tasks@, task_id@) == Some(p@),
                Err(e) => poll(self.tasks@, task_id@) is None && e@ == ServiceErrorView::NotFound(
                    "Task not found"@,
                ),
            },
    {
        match self.tasks.get(task_id) {
            Some(t) => Ok(progress_from(t)),
            None => Err(ServiceError::NotFound("Task not found".to_owned())),
        }
    }

    /// What the registry tells of every job it holds, terminal ones
    /// included, in the order of the registry.
    pub fn get_all_tasks(&self) -> (all: Vec<TaskProgress>)
        ensures
            all@.map_values(|p: TaskProgress| p@) == self.tasks.records().map_values(
                |t: TaskView| progress_of(t),
            ),
    {
        let records = self.tasks.get_all();
        let mut all: Vec<TaskProgress> = Vec::new();
        let mut i: usize = 0;
        while i < records.len()
            invariant
                i <= records.len(),
                all@.len() == i,
                records@.map_values(|t: Task| t@) == self.tasks.records(),
                forall|k: int| 0 <= k < i ==> (#[trigger] all@[k])@ == progress_of(records@[k]@),
            decreases records.len() - i,
        {
            all.push(progress_from(&records[i]));
            i += 1;
        }
        proof {
            let want = self.tasks.records().map_values(|t: TaskView| progress_of(t));
            let have = all@.map_values(|p: TaskProgress| p@);
            assert(have.len() == want.len());
            assert forall|k: int| 0 <= k < have.len() implies have[k] == want[k] by {
                assert(records@.map_values(|t: Task| t@)[k] == records@[k]@);
            }
            assert(have =~= want);
        }
        all
    }

    /// Asks job `task_id` to stop. The flag is raised and stays raised; the
    /// worker honours it at its next checkpoint. A second request changes
    /// nothing more. Without such a job: `NotFound`.
    pub fn stop_task(&mut self, task_id: &str) -> (r: Result<StopAck, ServiceError>)
        requires
            old(self).wf(),
        ensures
            final(self).wf(),
            final(self).archive_path@ == old(self).archive_path@,
            final(self).tasks@ == stop_effect(old(self).tasks@, task_id@),
            match r {
                Ok(ack) => old(self).tasks@.contains_key(task_id@) && ack.status@
                    == "Task stopping"@,
                Err(e) => !old(self).tasks@.contains_key(task_id@) && e@
                    == ServiceErrorView::NotFound("Task not found"@),
            },
    {
        if self.tasks.request_stop(task_id) {
            Ok(StopAck { status: "Task stopping".to_owned() })
        } else {
            Err(ServiceError::NotFound("Task not found".to_owned()))
        }
    }

    /// Whether the archive of job `task_id` may be fetched: the job is
    /// known and has succeeded.
    pub fn has_archive(&self, task_id: &str) -> (ready: bool)
        requires
            self.wf(),
        ensures
            ready == fetchable(self.tasks@, task_id@),
    {
        match self.tasks.get(task_id) {
            Some(t) => t.status() == TaskStatus::Succeeded,
            None => false,
        }
    }

    /// Hands over the archive of job `task_id`. `stored` is what reading
    /// the file at [`Self::get_file_path`] brought. Only a succeeded job
    /// has an archive: any other, and an unknown one, is `NotFound`
    /// whatever was read.
    pub fn get_archive(&self, task_id: &str, stored: Result<Vec<u8>, ReadFailure>) -> (r: Result<
        ArchiveResponse,
        ServiceError,
    >)
        requires
            self.wf(),
        ensures
            match r {
                Ok(a) => fetch(self.tasks@, task_id@, stored) == Ok::<
                    (Seq<u8>, Seq<char>),
                    ServiceErrorView,
                >((a.archive@, a.archive_name@)),
                Err(e) => fetch(self.tasks@, task_id@, stored) == Err::<
                    (Seq<u8>, Seq<char>),
                    ServiceErrorView,
                >(e@),
            },
    {
        let task = match self.tasks.get(task_id) {
            Some(t) => t,
            None => {
                return Err(ServiceError::NotFound("Task not found".to_owned()));
            },
        };
        if task.status() != TaskStatus::Succeeded {
            return Err(ServiceError::NotFound("Archive not found".to_owned()));
        }
        match stored {
            Ok(bytes) => Ok(
                ArchiveResponse { archive: bytes, archive_name: task.archive_name().to_owned() },
            ),
            Err(ReadFailure::Missing(d)) => Err(
                ServiceError::NotFound(join2("File not found: ", d.as_str())),
            ),
            Err(ReadFailure::Unreadable(d)) => Err(
                ServiceError::Internal(join2("Failed to read file: ", d.as_str())),
            ),
        }
    }
}

/// The poll answer for one record.
pub fn progress_from(t: &Task) -> (p: TaskProgress)
    ensures
        p@ == progress_of(t@),
{
    TaskProgress {
        task_id: t.task_id().to_owned(),
        status: t.status(),
        done: t.done(),
        progress: t.progress(),
        error: clone_opt(t.error()),
        timestamp: t.timestamp().to_owned(),
        archive_name: t.archive_name().to_owned(),
    }
}

} // verus!
