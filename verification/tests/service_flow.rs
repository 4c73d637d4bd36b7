use std::io::Read;

use task_service::archive::{BuildError, BuildErrorKind, FileInfo};
use task_service::service::{
    EnqueueTaskRequest, Enqueued, ReadFailure, ServiceError, TaskServiceImpl,
};
use task_service::task::TaskStatus;
use task_service::worker::{Worker, WorkerAction, WorkerPhase, STEP_SECONDS, TOTAL_STEPS};

fn file(name: &str, content: &str) -> FileInfo {
    FileInfo { filename: name.to_string(), content: content.as_bytes().to_vec() }
}

fn docs_request() -> EnqueueTaskRequest {
    EnqueueTaskRequest {
        archive_name: "docs".to_string(),
        files: vec![file("a.txt", "hello"), file("b.txt", "world")],
    }
}

fn submit(service: &mut TaskServiceImpl) -> Enqueued {
    service.enqueue_task(docs_request())
}

/// Drives the checkpoints of a worker until something else than a wait is
/// due, and returns that action with the progress seen after each
/// checkpoint.
fn run_checkpoints(service: &mut TaskServiceImpl, worker: &mut Worker) -> (WorkerAction, Vec<u32>) {
    let mut seen = Vec::new();
    loop {
        let action = worker.checkpoint(&mut service.tasks);
        if let Ok(p) = service.get_task_progress(worker.task_id()) {
            seen.push(p.progress);
        }
        if action != WorkerAction::Sleep(STEP_SECONDS) {
            return (action, seen);
        }
    }
}

fn read_entries(bytes: Vec<u8>, password: &str) -> Vec<(String, Vec<u8>)> {
    let mut archive = zip::ZipArchive::new(std::io::Cursor::new(bytes)).unwrap();
    let mut out = Vec::new();
    for i in 0..archive.len() {
        let mut entry = archive.by_index_decrypt(i, password.as_bytes()).unwrap();
        let mut content = Vec::new();
        entry.read_to_end(&mut content).unwrap();
        out.push((entry.name().to_string(), content));
    }
    out
}

fn is_not_found(e: &ServiceError) -> bool {
    matches!(e, ServiceError::NotFound(_))
}

#[test]
fn poll_right_after_submit_is_running_at_zero() {
    let mut service = TaskServiceImpl::new("/var/archives");
    let accepted = submit(&mut service);
    let p = service.get_task_progress(&accepted.task_id).unwrap();
    assert_eq!(p.task_id, accepted.task_id);
    assert_eq!(p.status, TaskStatus::Running);
    assert_eq!(p.progress, 0);
    assert!(!p.done);
    assert_eq!(p.error, None);
    assert_eq!(p.archive_name, "docs");
    assert!(!p.timestamp.is_empty());
}

#[test]
fn submit_hands_out_a_worker_at_its_start() {
    let mut service = TaskServiceImpl::new("/var/archives");
    let accepted = submit(&mut service);
    assert_eq!(accepted.worker.task_id(), accepted.task_id);
    assert_eq!(accepted.worker.step(), 0);
    assert_eq!(accepted.worker.pending(), WorkerAction::Sleep(6));
    assert_eq!(
        accepted.worker.file_path(),
        format!("/var/archives/{}.zip", accepted.task_id)
    );
}

#[test]
fn task_id_has_the_hyphenated_shape() {
    let mut service = TaskServiceImpl::new("out");
    let id = submit(&mut service).task_id;
    assert_eq!(id.len(), 36);
    for (i, c) in id.chars().enumerate() {
        if i == 8 || i == 13 || i == 18 || i == 23 {
            assert_eq!(c, '-');
        } else {
            assert!(c.is_ascii_digit() || ('a'..='f').contains(&c));
        }
    }
}

#[test]
fn two_submissions_get_different_ids_and_passwords() {
    let mut service = TaskServiceImpl::new("out");
    let a = submit(&mut service);
    let b = submit(&mut service);
    assert_ne!(a.task_id, b.task_id);
    let pa = service.tasks.get(&a.task_id).unwrap().password().to_string();
    let pb = service.tasks.get(&b.task_id).unwrap().password().to_string();
    assert_ne!(pa, pb);
    assert_eq!(service.tasks.len(), 2);
}

#[test]
fn file_path_is_root_slash_id_dot_zip() {
    let service = TaskServiceImpl::new("/tmp/archives");
    assert_eq!(service.get_file_path("abc"), "/tmp/archives/abc.zip");
    assert_eq!(TaskServiceImpl::new("").get_file_path(""), "/.zip");
}

#[test]
fn progress_goes_up_in_tenths() {
    let mut service = TaskServiceImpl::new("out");
    let mut worker = submit(&mut service).worker;
    let (action, seen) = run_checkpoints(&mut service, &mut worker);
    assert_eq!(action, WorkerAction::Build);
    // the last checkpoint publishes nothing: 100 is for success
    assert_eq!(seen, vec![10, 20, 30, 40, 50, 60, 70, 80, 90, 90]);
    assert_eq!(worker.step(), TOTAL_STEPS);
    assert_eq!(worker.pending(), WorkerAction::Build);
    let p = service.get_task_progress(worker.task_id()).unwrap();
    assert_eq!(p.status, TaskStatus::Running);
    assert_eq!(p.progress, 90);
    worker.complete(&mut service.tasks, Ok(()));
    let p = service.get_task_progress(worker.task_id()).unwrap();
    assert_eq!(p.status, TaskStatus::Succeeded);
    assert_eq!(p.progress, 100);
}

#[test]
fn first_checkpoint_publishes_ten_and_waits_again() {
    let mut service = TaskServiceImpl::new("out");
    let mut worker = submit(&mut service).worker;
    assert_eq!(worker.checkpoint(&mut service.tasks), WorkerAction::Sleep(6));
    assert_eq!(worker.step(), 1);
    assert_eq!(service.get_task_progress(worker.task_id()).unwrap().progress, 10);
}

#[test]
fn docs_submission_builds_and_fetches_the_archive() {
    let mut service = TaskServiceImpl::new("out");
    let accepted = submit(&mut service);
    let id = accepted.task_id;
    let mut worker = accepted.worker;
    let (action, _) = run_checkpoints(&mut service, &mut worker);
    assert_eq!(action, WorkerAction::Build);
    let bytes = worker.build().unwrap();
    worker.complete(&mut service.tasks, Ok(()));
    assert_eq!(worker.pending(), WorkerAction::Exit);

    let p = service.get_task_progress(&id).unwrap();
    assert_eq!(p.status, TaskStatus::Succeeded);
    assert!(p.done);
    assert_eq!(p.progress, 100);
    assert_eq!(p.error, None);

    assert!(service.has_archive(&id));
    let fetched = service.get_archive(&id, Ok(bytes.clone())).unwrap();
    assert_eq!(fetched.archive_name, "docs");
    assert_eq!(fetched.archive, bytes);

    let password = service.tasks.get(&id).unwrap().password().to_string();
    assert_eq!(password.len(), 20);
    assert!(password.chars().all(|c| c.is_ascii_alphanumeric()));
    let entries = read_entries(fetched.archive, &password);
    assert_eq!(
        entries,
        vec![
            ("a.txt".to_string(), b"hello".to_vec()),
            ("b.txt".to_string(), b"world".to_vec()),
        ]
    );
}

#[test]
fn archive_does_not_open_with_another_password() {
    let mut service = TaskServiceImpl::new("out");
    let mut worker = submit(&mut service).worker;
    run_checkpoints(&mut service, &mut worker);
    let bytes = worker.build().unwrap();
    let mut archive = zip::ZipArchive::new(std::io::Cursor::new(bytes)).unwrap();
    assert!(archive.by_index_decrypt(0, b"not the password").is_err());
}

#[test]
fn cancel_right_after_submit_removes_the_job() {
    let mut service = TaskServiceImpl::new("out");
    let accepted = submit(&mut service);
    let id = accepted.task_id;
    let mut worker = accepted.worker;
    let ack = service.stop_task(&id).unwrap();
    assert_eq!(ack.status, "Task stopping");
    // until the checkpoint the job is still there, and shows nothing new
    let p = service.get_task_progress(&id).unwrap();
    assert_eq!(p.status, TaskStatus::Running);
    assert_eq!(p.progress, 0);
    assert_eq!(worker.checkpoint(&mut service.tasks), WorkerAction::Exit);
    assert!(is_not_found(&service.get_task_progress(&id).unwrap_err()));
    assert!(service.get_all_tasks().is_empty());
    assert_eq!(worker.pending(), WorkerAction::Exit);
    // a finished worker stays finished
    assert_eq!(worker.checkpoint(&mut service.tasks), WorkerAction::Exit);
    worker.complete(&mut service.tasks, Ok(()));
    assert!(is_not_found(&service.get_task_progress(&id).unwrap_err()));
}

#[test]
fn cancel_midway_is_honoured_at_the_next_checkpoint() {
    let mut service = TaskServiceImpl::new("out");
    let accepted = submit(&mut service);
    let id = accepted.task_id;
    let mut worker = accepted.worker;
    for _ in 0..3 {
        assert_eq!(worker.checkpoint(&mut service.tasks), WorkerAction::Sleep(6));
    }
    assert_eq!(service.get_task_progress(&id).unwrap().progress, 30);
    service.stop_task(&id).unwrap();
    assert_eq!(service.get_task_progress(&id).unwrap().progress, 30);
    assert_eq!(worker.checkpoint(&mut service.tasks), WorkerAction::Exit);
    assert!(is_not_found(&service.get_task_progress(&id).unwrap_err()));
    assert!(is_not_found(&service.stop_task(&id).unwrap_err()));
    assert!(is_not_found(&service.get_archive(&id, Ok(vec![1, 2, 3])).unwrap_err()));
}

#[test]
fn cancel_before_the_last_checkpoint_still_counts() {
    let mut service = TaskServiceImpl::new("out");
    let accepted = submit(&mut service);
    let id = accepted.task_id;
    let mut worker = accepted.worker;
    for _ in 0..9 {
        worker.checkpoint(&mut service.tasks);
    }
    assert_eq!(service.get_task_progress(&id).unwrap().progress, 90);
    service.stop_task(&id).unwrap();
    assert_eq!(worker.checkpoint(&mut service.tasks), WorkerAction::Exit);
    assert!(service.get_task_progress(&id).is_err());
}

#[test]
fn cancel_after_the_last_checkpoint_is_too_late() {
    let mut service = TaskServiceImpl::new("out");
    let accepted = submit(&mut service);
    let id = accepted.task_id;
    let mut worker = accepted.worker;
    run_checkpoints(&mut service, &mut worker);
    service.stop_task(&id).unwrap();
    assert_eq!(worker.checkpoint(&mut service.tasks), WorkerAction::Build);
    worker.complete(&mut service.tasks, Ok(()));
    let p = service.get_task_progress(&id).unwrap();
    assert_eq!(p.status, TaskStatus::Succeeded);
    assert_eq!(p.progress, 100);
}

#[test]
fn cancel_twice_is_acknowledged_twice() {
    let mut service = TaskServiceImpl::new("out");
    let id = submit(&mut service).task_id;
    assert_eq!(service.stop_task(&id).unwrap().status, "Task stopping");
    assert_eq!(service.stop_task(&id).unwrap().status, "Task stopping");
    assert!(service.tasks.get(&id).unwrap().stop_requested());
    assert_eq!(service.tasks.len(), 1);
}

#[test]
fn cancel_after_success_changes_nothing_shown() {
    let mut service = TaskServiceImpl::new("out");
    let accepted = submit(&mut service);
    let id = accepted.task_id;
    let mut worker = accepted.worker;
    run_checkpoints(&mut service, &mut worker);
    worker.complete(&mut service.tasks, Ok(()));
    assert_eq!(service.stop_task(&id).unwrap().status, "Task stopping");
    let p = service.get_task_progress(&id).unwrap();
    assert_eq!(p.status, TaskStatus::Succeeded);
    assert_eq!(p.progress, 100);
    assert_eq!(p.error, None);
    assert!(service.has_archive(&id));
}

#[test]
fn cancel_after_failure_changes_nothing_shown() {
    let mut service = TaskServiceImpl::new("out");
    let accepted = submit(&mut service);
    let id = accepted.task_id;
    let mut worker = accepted.worker;
    run_checkpoints(&mut service, &mut worker);
    let cause = BuildError { kind: BuildErrorKind::Io, detail: "disk full".to_string() };
    worker.complete(&mut service.tasks, Err(cause));
    service.stop_task(&id).unwrap();
    let p = service.get_task_progress(&id).unwrap();
    assert_eq!(p.status, TaskStatus::Failed);
    assert!(!p.done);
    assert_eq!(p.error, Some("Failed to create archive: disk full".to_string()));
}

#[test]
fn failed_build_is_recorded_with_its_cause() {
    let mut service = TaskServiceImpl::new("out");
    let accepted = service.enqueue_task(EnqueueTaskRequest {
        archive_name: "twice".to_string(),
        files: vec![file("a.txt", "one"), file("a.txt", "two")],
    });
    let id = accepted.task_id;
    let mut worker = accepted.worker;
    run_checkpoints(&mut service, &mut worker);
    let err = worker.build().unwrap_err();
    assert_eq!(err.kind, BuildErrorKind::InvalidArchive);
    let detail = err.detail.clone();
    worker.complete(&mut service.tasks, Err(err));
    let p = service.get_task_progress(&id).unwrap();
    assert_eq!(p.status, TaskStatus::Failed);
    assert_eq!(p.progress, 90);
    assert_eq!(p.error, Some(format!("Failed to create archive: {}", detail)));
    assert!(!service.has_archive(&id));
    assert!(is_not_found(&service.get_archive(&id, Ok(vec![0])).unwrap_err()));
}

#[test]
fn poll_of_unknown_id_is_not_found() {
    let service = TaskServiceImpl::new("out");
    match service.get_task_progress("never-submitted") {
        Err(ServiceError::NotFound(m)) => assert_eq!(m, "Task not found"),
        other => panic!("unexpected: {:?}", other),
    }
}

#[test]
fn cancel_of_unknown_id_is_not_found() {
    let mut service = TaskServiceImpl::new("out");
    let id = submit(&mut service).task_id;
    match service.stop_task("never-submitted") {
        Err(ServiceError::NotFound(m)) => assert_eq!(m, "Task not found"),
        other => panic!("unexpected: {:?}", other),
    }
    assert!(!service.tasks.get(&id).unwrap().stop_requested());
}

#[test]
fn fetch_needs_a_succeeded_job() {
    let mut service = TaskServiceImpl::new("out");
    match service.get_archive("never-submitted", Ok(vec![1])) {
        Err(ServiceError::NotFound(m)) => assert_eq!(m, "Task not found"),
        other => panic!("unexpected: {:?}", other),
    }
    let accepted = submit(&mut service);
    let id = accepted.task_id;
    assert!(!service.has_archive(&id));
    match service.get_archive(&id, Ok(vec![1])) {
        Err(ServiceError::NotFound(m)) => assert_eq!(m, "Archive not found"),
        other => panic!("unexpected: {:?}", other),
    }
}

#[test]
fn fetch_reports_what_the_store_reported() {
    let mut service = TaskServiceImpl::new("out");
    let accepted = submit(&mut service);
    let id = accepted.task_id;
    let mut worker = accepted.worker;
    run_checkpoints(&mut service, &mut worker);
    worker.complete(&mut service.tasks, Ok(()));
    match service.get_archive(&id, Err(ReadFailure::Missing("gone".to_string()))) {
        Err(ServiceError::NotFound(m)) => assert_eq!(m, "File not found: gone"),
        other => panic!("unexpected: {:?}", other),
    }
    match service.get_archive(&id, Err(ReadFailure::Unreadable("torn".to_string()))) {
        Err(ServiceError::Internal(m)) => assert_eq!(m, "Failed to read file: torn"),
        other => panic!("unexpected: {:?}", other),
    }
    let ok = service.get_archive(&id, Ok(vec![7, 8, 9])).unwrap();
    assert_eq!(ok.archive, vec![7, 8, 9]);
    assert_eq!(ok.archive_name, "docs");
}

#[test]
fn jobs_run_independently() {
    let mut service = TaskServiceImpl::new("out");
    let a = submit(&mut service);
    let b = submit(&mut service);
    let c = submit(&mut service);
    let (mut wa, mut wb, mut wc) = (a.worker, b.worker, c.worker);
    for _ in 0..4 {
        wa.checkpoint(&mut service.tasks);
    }
    for _ in 0..2 {
        wb.checkpoint(&mut service.tasks);
    }
    service.stop_task(&b.task_id).unwrap();
    assert_eq!(wb.checkpoint(&mut service.tasks), WorkerAction::Exit);
    assert_eq!(service.get_task_progress(&a.task_id).unwrap().progress, 40);
    assert_eq!(service.get_task_progress(&c.task_id).unwrap().progress, 0);
    assert!(service.get_task_progress(&b.task_id).is_err());

    let (action_a, _) = run_checkpoints(&mut service, &mut wa);
    assert_eq!(action_a, WorkerAction::Build);
    wa.complete(&mut service.tasks, Ok(()));
    let (action_c, seen_c) = run_checkpoints(&mut service, &mut wc);
    assert_eq!(action_c, WorkerAction::Build);
    assert_eq!(seen_c.len(), 10);
    wc.complete(
        &mut service.tasks,
        Err(BuildError { kind: BuildErrorKind::Other, detail: "x".to_string() }),
    );

    let all = service.get_all_tasks();
    assert_eq!(all.len(), 2);
    assert_eq!(all[0].task_id, a.task_id);
    assert_eq!(all[0].status, TaskStatus::Succeeded);
    assert_eq!(all[1].task_id, c.task_id);
    assert_eq!(all[1].status, TaskStatus::Failed);
}

#[test]
fn all_tasks_of_an_empty_service_is_empty() {
    let service = TaskServiceImpl::new("out");
    assert!(service.get_all_tasks().is_empty());
    assert_eq!(service.tasks.len(), 0);
}

#[test]
fn complete_before_the_checkpoints_are_over_does_nothing() {
    let mut service = TaskServiceImpl::new("out");
    let accepted = submit(&mut service);
    let mut worker = accepted.worker;
    worker.checkpoint(&mut service.tasks);
    worker.complete(&mut service.tasks, Ok(()));
    let p = service.get_task_progress(&accepted.task_id).unwrap();
    assert_eq!(p.status, TaskStatus::Running);
    assert_eq!(p.progress, 10);
    assert_eq!(worker.pending(), WorkerAction::Sleep(6));
}

#[test]
fn submission_without_files_is_accepted_and_builds_an_empty_archive() {
    let mut service = TaskServiceImpl::new("out");
    let accepted = service
        .enqueue_task(EnqueueTaskRequest { archive_name: "none".to_string(), files: vec![] });
    let mut worker = accepted.worker;
    run_checkpoints(&mut service, &mut worker);
    let bytes = worker.build().unwrap();
    let archive = zip::ZipArchive::new(std::io::Cursor::new(bytes)).unwrap();
    assert_eq!(archive.len(), 0);
}

#[test]
fn worker_ends_in_the_status_of_its_job() {
    let mut service = TaskServiceImpl::new("out");
    let mut cancelled = submit(&mut service).worker;
    assert_eq!(cancelled.phase(), WorkerPhase::Waiting);
    service.stop_task(cancelled.task_id()).unwrap();
    cancelled.checkpoint(&mut service.tasks);
    assert_eq!(cancelled.phase(), WorkerPhase::Finished(TaskStatus::Cancelled));

    let mut succeeded = submit(&mut service).worker;
    run_checkpoints(&mut service, &mut succeeded);
    assert_eq!(succeeded.phase(), WorkerPhase::Building);
    succeeded.complete(&mut service.tasks, Ok(()));
    assert_eq!(succeeded.phase(), WorkerPhase::Finished(TaskStatus::Succeeded));

    let mut failed = submit(&mut service).worker;
    run_checkpoints(&mut service, &mut failed);
    failed.complete(
        &mut service.tasks,
        Err(BuildError { kind: BuildErrorKind::Io, detail: "no space".to_string() }),
    );
    assert_eq!(failed.phase(), WorkerPhase::Finished(TaskStatus::Failed));
    assert_eq!(STEP_SECONDS * (TOTAL_STEPS as u64), 60);
}

#[test]
fn worker_of_a_vanished_record_runs_on_and_changes_nothing() {
    let mut service = TaskServiceImpl::new("out");
    let accepted = submit(&mut service);
    let mut worker = accepted.worker;
    assert!(service.tasks.remove(&accepted.task_id).is_some());
    let (action, seen) = run_checkpoints(&mut service, &mut worker);
    assert_eq!(action, WorkerAction::Build);
    assert!(seen.is_empty());
    worker.complete(&mut service.tasks, Ok(()));
    assert_eq!(service.tasks.len(), 0);
}

#[test]
fn default_service_is_empty() {
    let service = TaskServiceImpl::default();
    assert_eq!(service.archive_path, "");
    assert_eq!(service.tasks.len(), 0);
    assert_eq!(service.get_file_path("x"), "/x.zip");
}

#[test]
fn job_with_a_name_too_long_fails_with_the_reason() {
    let mut service = TaskServiceImpl::new("out");
    let accepted = service.enqueue_task(EnqueueTaskRequest {
        archive_name: "long".to_string(),
        files: vec![file(&"x".repeat(65536), "content")],
    });
    let mut worker = accepted.worker;
    run_checkpoints(&mut service, &mut worker);
    let err = worker.build().unwrap_err();
    assert_eq!(err.kind, BuildErrorKind::NameTooLong);
    worker.complete(&mut service.tasks, Err(err));
    let p = service.get_task_progress(&accepted.task_id).unwrap();
    assert_eq!(p.status, TaskStatus::Failed);
    assert_eq!(
        p.error,
        Some("Failed to create archive: File name exceeds 65535 bytes".to_string())
    );
}
