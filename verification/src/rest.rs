//! What the HTTP front end says: the shapes of its queries and answers, and
//! how an answer of the service becomes one of them.

use vstd::prelude::*;
use vstd::string::*;
use crate::archive::FileInfo;
use crate::service::{
    poll, progress_of, EnqueueTaskRequest, Enqueued, ServiceError, ServiceErrorView, StopAck,
    TaskProgress, TaskProgressView, TaskServiceImpl,
};
use crate::task::{opt_view, TaskView};
use crate::text::{clone_opt, join2};

verus! {

/// The answer to an accepted submission.
#[derive(Debug)]
pub struct TaskIdResponse {
    pub task_id: String,
}

/// The query of a download.
#[derive(Debug)]
#[allow(non_snake_case)]
pub struct GetArchiveQuery {
    pub taskId: String,
}

/// The query of a poll: one job, or all of them where no job is named.
#[derive(Debug)]
#[allow(non_snake_case)]
pub struct GetProgressQuery {
    pub taskId: Option<String>,
}

/// The query of a cancel request.
#[derive(Debug)]
#[allow(non_snake_case)]
pub struct StopTaskQuery {
    pub taskId: String,
}

/// The progress of one job as the front end shows it.
#[derive(Debug)]
pub struct SingleTaskResponse {
    pub task_id: String,
    pub done: bool,
    pub progress: i16,
    pub error: Option<String>,
}

/// The mathematical content of a [`SingleTaskResponse`].
pub struct SingleTaskView {
    pub task_id: Seq<char>,
    pub done: bool,
    pub progress: int,
    pub error: Option<Seq<char>>,
}

impl View for SingleTaskResponse {
    type V = SingleTaskView;

    open spec fn view(&self) -> SingleTaskView {
        SingleTaskView {
            task_id: self.task_id@,
            done: self.done,
            progress: self.progress as int,
            error: opt_view(self.error),
        }
    }
}

/// The progress of all jobs.
#[derive(Debug)]
pub struct AllTasksResponse {
    pub tasks: Vec<SingleTaskResponse>,
}

/// The answer to a poll: of one job or of all.
#[derive(Debug)]
pub enum TaskProgressResponse {
    Single(SingleTaskResponse),
    All(AllTasksResponse),
}

/// The mathematical content of a [`TaskProgressResponse`].
pub enum TaskProgressResponseView {
    Single(SingleTaskView),
    All(Seq<SingleTaskView>),
}

impl View for TaskProgressResponse {
    type V = TaskProgressResponseView;

    open spec fn view(&self) -> TaskProgressResponseView {
        match *self {
            TaskProgressResponse::Single(s) => TaskProgressResponseView::Single(s@),
            TaskProgressResponse::All(a) => TaskProgressResponseView::All(
                a.tasks@.map_values(|s: SingleTaskResponse| s@),
            ),
        }
    }
}

/// The answer to a cancel request.
#[derive(Debug)]
pub struct StopTaskResponse {
    pub status: String,
}

/// The answer to a request that failed.
#[derive(Debug)]
pub struct ErrorResponse {
    pub code: String,
    pub message: String,
}

impl ErrorResponse {
    /// An error answer with the given code and message.
    pub fn new(code: &str, message: &str) -> (e: ErrorResponse)
        ensures
            e.code@ == code@,
            e.message@ == message@,
    {
        ErrorResponse { code: code.to_owned(), message: message.to_owned() }
    }

    /// The error answer for a refusal of the service: the code names the
    /// kind, the message is the service's own.
    pub fn from_error(error: &ServiceError) -> (e: ErrorResponse)
        ensures
            e.code@ == error_code(error@),
            e.message@ == error_message(error@),
    {
        match error {
            ServiceError::NotFound(m) => ErrorResponse::new("NotFound", m.as_str()),
            ServiceError::Internal(m) => ErrorResponse::new("InternalServerError", m.as_str()),
        }
    }
}

/// The code under which the front end reports a refusal.
pub open spec fn error_code(e: ServiceErrorView) -> Seq<char> {
    match e {
        ServiceErrorView::NotFound(_) => "NotFound"@,
        ServiceErrorView::Internal(_) => "InternalServerError"@,
    }
}

/// The message of a refusal.
pub open spec fn error_message(e: ServiceErrorView) -> Seq<char> {
    match e {
        ServiceErrorView::NotFound(m) => m,
        ServiceErrorView::Internal(m) => m,
    }
}

/// The HTTP status of a refusal: 404 for an unknown job, 500 for anything
/// else.
pub fn status_code(error: &ServiceError) -> (code: u16)
    ensures
        code == (match error@ {
            ServiceErrorView::NotFound(_) => 404u16,
            ServiceErrorView::Internal(_) => 500u16,
        }),
{
    match error {
        ServiceError::NotFound(_) => 404,
        ServiceError::Internal(_) => 500,
    }
}

/// What the front end shows of a poll answer.
pub open spec fn shown(p: TaskProgressView) -> SingleTaskView {
    SingleTaskView {
        task_id: p.task_id,
        done: p.done,
        progress: (p.progress as u32) as i16 as int,
        error: p.error,
    }
}

/// The front end's form of a poll answer.
pub fn single_response(p: &TaskProgress) -> (s: SingleTaskResponse)
    ensures
        s@ == shown(p@),
        p.progress <= 100 ==> s@.progress == p@.progress,
{
    SingleTaskResponse {
        task_id: p.task_id.clone(),
        done: p.done,
        progress: p.progress as i16,
        error: clone_opt(&p.error),
    }
}

/// The front end's form of an accepted submission.
pub fn task_id_response(accepted: &Enqueued) -> (r: TaskIdResponse)
    ensures
        r.task_id@ == accepted.task_id@,
{
    TaskIdResponse { task_id: accepted.task_id.clone() }
}

/// The front end's form of an acknowledged cancel request.
pub fn stop_response(ack: StopAck) -> (r: StopTaskResponse)
    ensures
        r.status@ == ack.status@,
{
    StopTaskResponse { status: ack.status }
}

/// The name under which an upload enters the archive: its own, or
/// `unknown` where it has none.
pub fn upload_name(file_name: Option<String>) -> (name: String)
    ensures
        name@ == (match file_name {
            Some(n) => n@,
            None => "unknown"@,
        }),
{
    match file_name {
        Some(n) => n,
        None => "unknown".to_owned(),
    }
}

/// One uploaded file as the front end received it: the name it came with,
/// and its bytes where they could be read.
#[derive(Debug)]
pub struct Upload {
    pub file_name: Option<String>,
    pub content: Option<Vec<u8>>,
}

/// The name of an upload.
pub open spec fn name_of(u: Upload) -> Seq<char> {
    match u.file_name {
        Some(n) => n@,
        None => "unknown"@,
    }
}

/// Whether the bytes of every upload before place `n` could be read.
pub open spec fn all_read(uploads: Seq<Upload>, n: int) -> bool {
    forall|i: int| 0 <= i < n ==> (#[trigger] uploads[i]).content is Some
}

/// Whether place `k` holds the first upload whose bytes could not be read.
pub open spec fn first_unread(uploads: Seq<Upload>, k: int) -> bool {
    &&& 0 <= k < uploads.len()
    &&& all_read(uploads, k)
    &&& uploads[k].content is None
}

/// The message for an upload whose bytes could not be read.
pub open spec fn unread_message(name: Seq<char>) -> Seq<char> {
    "Failed to read file "@ + name
}

/// Makes the submission out of what was uploaded: every upload under its
/// name, in the order received. The first upload that could not be read
/// turns the whole request down.
pub fn enqueue_request(archive_name: String, uploads: Vec<Upload>) -> (r: Result<
    EnqueueTaskRequest,
    ErrorResponse,
>)
    ensures
        match r {
            Ok(req) => {
                &&& all_read(uploads@, uploads@.len() as int)
                &&& req.archive_name@ == archive_name@
                &&& req.files@.len() == uploads@.len()
                &&& forall|i: int|
                    0 <= i < uploads@.len() ==> (#[trigger] req.files@[i]).filename@ == name_of(
                        uploads@[i],
                    ) && req.files@[i].content@ == uploads@[i].content->Some_0@
            },
            Err(e) => exists|k: int|
                #[trigger] first_unread(uploads@, k) && e.code@ == "InternalServerError"@
                    && e.message@ == unread_message(name_of(uploads@[k])),
        },
{
    let ghost given = uploads@;
    let mut files: Vec<FileInfo> = Vec::new();
    let mut rest = uploads;
    let mut i: usize = 0;
    let n = rest.len();
    while i < n
        invariant
            given == uploads@,
            n == given.len(),
            i <= n,
            rest@.len() == n,
            forall|k: int| i <= k < n ==> rest@[k] == given[k],
            all_read(given, i as int),
            files@.len() == i,
            forall|k: int|
                0 <= k < i ==> (#[trigger] files@[k]).filename@ == name_of(given[k])
                    && files@[k].content@ == given[k].content->Some_0@,
        decreases n - i,
    {
        let mut taken = Upload { file_name: None, content: None };
        std::mem::swap(&mut taken, &mut rest[i]);
        assert(taken == given[i as int]);
        let filename = upload_name(taken.file_name);
        match taken.content {
            Some(content) => {
                files.push(FileInfo { filename, content });
            },
            None => {
                let message = join2("Failed to read file ", filename.as_str());
                let e = ErrorResponse::new("InternalServerError", message.as_str());
                proof {
                    let k = i as int;
                    assert(first_unread(given, k));
                    assert(e.code@ == "InternalServerError"@);
                    assert(e.message@ == unread_message(name_of(given[k])));
                }
                return Err(e);
            },
        }
        i += 1;
    }
    Ok(EnqueueTaskRequest { archive_name, files })
}

/// The `Content-Disposition` header of a download.
pub fn content_disposition(archive_name: &str) -> (header: String)
    ensures
        header@ == "attachment; filename=\""@ + archive_name@ + "\".zip"@,
{
    let mut header = "attachment; filename=\"".to_owned();
    header.append(archive_name);
    header.append("\".zip");
    header
}

/// The answer to a poll, as the query asks: the named job, or all jobs
/// where none is named.
pub open spec fn progress_answer(tasks: Seq<TaskView>, query: Option<Seq<char>>) -> Result<
    TaskProgressResponseView,
    ServiceErrorView,
> {
    match query {
        Some(id) => match poll(crate::registry::as_map(tasks), id) {
            Some(p) => Ok(TaskProgressResponseView::Single(shown(p))),
            None => Err(ServiceErrorView::NotFound("Task not found"@)),
        },
        None => Ok(
            TaskProgressResponseView::All(tasks.map_values(|t: TaskView| shown(progress_of(t)))),
        ),
    }
}

/// Answers a poll from the service.
pub fn get_progress(service: &TaskServiceImpl, query: &GetProgressQuery) -> (r: Result<
    TaskProgressResponse,
    ServiceError,
>)
    requires
        service.wf(),
    ensures
        match r {
            Ok(a) => progress_answer(service.tasks.records(), opt_view(query.taskId)) == Ok::<
                TaskProgressResponseView,
                ServiceErrorView,
            >(a@),
            Err(e) => progress_answer(service.tasks.records(), opt_view(query.taskId)) == Err::<
                TaskProgressResponseView,
                ServiceErrorView,
            >(e@),
        },
{
    match &query.taskId {
        Some(id) => {
            match service.get_task_progress(id.as_str()) {
                Ok(p) => Ok(TaskProgressResponse::Single(single_response(&p))),
                Err(e) => Err(e),
            }
        },
        None => {
            let all = service.get_all_tasks();
            let mut tasks: Vec<SingleTaskResponse> = Vec::new();
            let mut i: usize = 0;
            while i < all.len()
                invariant
                    i <= all.len(),
                    tasks@.len() == i,
                    forall|k: int| 0 <= k < i ==> (#[trigger] tasks@[k])@ == shown(all@[k]@),
                decreases all.len() - i,
            {
                tasks.push(single_response(&all[i]));
                i += 1;
            }
            proof {
                let recs = service.tasks.records();
                let want = recs.map_values(|t: TaskView| shown(progress_of(t)));
                let have = tasks@.map_values(|s: SingleTaskResponse| s@);
                let mid = all@.map_values(|p: TaskProgress| p@);
                assert(mid == recs.map_values(|t: TaskView| progress_of(t)));
                assert(mid.len() == all@.len());
                assert(mid.len() == recs.len());
                assert(have.len() == want.len());
                assert forall|k: int| 0 <= k < have.len() implies have[k] == want[k] by {
                    assert(mid[k] == all@[k]@);
                    assert(mid[k] == progress_of(recs[k]));
                }
                assert(have =~= want);
            }
            Ok(TaskProgressResponse::All(AllTasksResponse { tasks }))
        },
    }
}

} // verus!
