use std::collections::HashMap;
use tokio_browser::task::{FsOp, OpOutcome, StressTask, TaskKind};

/// Runs a task against an in-memory file system. `fail_at` makes the
/// operation with that index fail; `corrupt` replaces what every read returns.
fn drive(
    kind: TaskKind,
    id: usize,
    iterations: usize,
    fail_at: Option<usize>,
    corrupt: Option<Vec<u8>>,
) -> (Vec<String>, Result<(), String>) {
    let mut files: HashMap<String, Vec<u8>> = HashMap::new();
    let mut log = Vec::new();
    let (mut task, mut op) = StressTask::start(kind, id, iterations);
    loop {
        let index = log.len();
        let outcome = match op {
            FsOp::Finish(r) => {
                assert!(task.is_finished());
                return (log, r);
            }
            FsOp::CreateDirAll(p) => {
                log.push(format!("mkdir {p}"));
                OpOutcome::Completed
            }
            FsOp::Write(p, c) => {
                log.push(format!("write {p} {}", &c[..c.len().min(30)]));
                files.insert(p, c.into_bytes());
                OpOutcome::Completed
            }
            FsOp::Read(p) => {
                log.push(format!("read {p}"));
                match &corrupt {
                    Some(b) => OpOutcome::Bytes(b.clone()),
                    None => OpOutcome::Bytes(files.get(&p).cloned().unwrap_or_default()),
                }
            }
            FsOp::RemoveFile(p) => {
                log.push(format!("rm {p}"));
                files.remove(&p);
                OpOutcome::Completed
            }
            FsOp::RemoveDir(p) => {
                log.push(format!("rmdir {p}"));
                OpOutcome::Completed
            }
            FsOp::WriteAndRead(p, c) => {
                log.push(format!("write+read {p} {}", c.len()));
                files.insert(p, c.into_bytes());
                OpOutcome::Completed
            }
        };
        assert!(!task.is_finished());
        let outcome = if fail_at == Some(index) {
            OpOutcome::Failed(format!("boom at {index}"))
        } else {
            outcome
        };
        op = task.advance(outcome);
    }
}

#[test]
fn independent_task_script() {
    let (log, r) = drive(TaskKind::IndependentFiles, 3, 2, None, None);
    assert_eq!(r, Ok(()));
    assert_eq!(
        log,
        vec![
            "mkdir /stress/task_3",
            "write /stress/task_3/file_0.txt content_task_3_iter_0",
            "read /stress/task_3/file_0.txt",
            "write /stress/task_3/file_1.txt content_task_3_iter_1",
            "read /stress/task_3/file_1.txt",
        ]
    );
}

#[test]
fn independent_task_without_iterations_still_makes_its_directory() {
    let (log, r) = drive(TaskKind::IndependentFiles, 0, 0, None, None);
    assert_eq!(r, Ok(()));
    assert_eq!(log, vec!["mkdir /stress/task_0"]);
}

#[test]
fn independent_task_reports_mismatch() {
    let (log, r) = drive(TaskKind::IndependentFiles, 1, 3, None, Some(b"nope".to_vec()));
    assert_eq!(log.len(), 3);
    assert_eq!(
        r,
        Err("Stress test mismatch in /stress/task_1/file_0.txt: expected 'content_task_1_iter_0', got 'nope'".to_string())
    );
}

#[test]
fn failed_operation_ends_task_with_its_text() {
    let (log, r) = drive(TaskKind::IndependentFiles, 1, 3, Some(3), None);
    assert_eq!(log.len(), 4);
    assert_eq!(r, Err("boom at 3".to_string()));
    let (log, r) = drive(TaskKind::FsOps, 2, 3, Some(0), None);
    assert_eq!(log.len(), 1);
    assert_eq!(r, Err("boom at 0".to_string()));
    let (_, r) = drive(TaskKind::SharedFile, 2, 3, Some(5), None);
    assert_eq!(r, Err("boom at 5".to_string()));
}

#[test]
fn shared_task_script() {
    let (log, r) = drive(TaskKind::SharedFile, 7, 2, None, None);
    assert_eq!(r, Ok(()));
    assert_eq!(
        log,
        vec![
            "write /stress/shared_file.txt shared_content_task_7_iter_0",
            "read /stress/shared_file.txt",
            "write /stress/shared_file.txt shared_content_task_7_iter_1",
            "read /stress/shared_file.txt",
        ]
    );
}

#[test]
fn shared_task_accepts_another_tasks_write() {
    let (_, r) = drive(TaskKind::SharedFile, 7, 2, None, Some(b"shared_content_task_9_iter_4".to_vec()));
    assert_eq!(r, Ok(()));
}

#[test]
fn shared_task_reports_corruption_and_bad_utf8() {
    let (_, r) = drive(TaskKind::SharedFile, 7, 2, None, Some(b"garbage".to_vec()));
    assert_eq!(r, Err("Shared file stress test corruption in /stress/shared_file.txt: got 'garbage'".to_string()));
    let (_, r) = drive(TaskKind::SharedFile, 7, 2, None, Some(vec![0xff]));
    assert_eq!(
        r,
        Err("Invalid UTF-8 read in shared test: invalid utf-8 sequence of 1 bytes from index 0".to_string())
    );
}

#[test]
fn fs_ops_task_script() {
    let (log, r) = drive(TaskKind::FsOps, 5, 2, None, None);
    assert_eq!(r, Ok(()));
    assert_eq!(
        log,
        vec![
            "mkdir /stress/ops_task_5",
            "mkdir /stress/ops_task_5/dir_0",
            "write /stress/ops_task_5/dir_0/file.txt content",
            "rm /stress/ops_task_5/dir_0/file.txt",
            "rmdir /stress/ops_task_5/dir_0",
            "mkdir /stress/ops_task_5/dir_1",
            "write /stress/ops_task_5/dir_1/file.txt content",
            "rm /stress/ops_task_5/dir_1/file.txt",
            "rmdir /stress/ops_task_5/dir_1",
        ]
    );
}

#[test]
fn race_task_script_and_failures_ignored() {
    let (log, r) = drive(TaskKind::RaceCondition, 4, 2, None, None);
    assert_eq!(r, Ok(()));
    let n = 10240 + "race_content_4_0_".len();
    assert_eq!(
        log,
        vec![
            format!("write+read /stress/race_file.txt {n}"),
            "rm /stress/race_file.txt".to_string(),
            format!("write+read /stress/race_file.txt {n}"),
            "rm /stress/race_file.txt".to_string(),
        ]
    );
    for k in 0..4 {
        let (log, r) = drive(TaskKind::RaceCondition, 4, 2, Some(k), None);
        assert_eq!(r, Ok(()));
        assert_eq!(log.len(), 4);
    }
}

#[test]
fn tasks_without_setup_and_iterations_finish_at_once() {
    for kind in [TaskKind::SharedFile, TaskKind::RaceCondition] {
        let (log, r) = drive(kind, 0, 0, None, None);
        assert!(log.is_empty());
        assert_eq!(r, Ok(()));
    }
}

#[test]
fn script_lengths() {
    assert_eq!(drive(TaskKind::IndependentFiles, 0, 10, None, None).0.len(), 21);
    assert_eq!(drive(TaskKind::SharedFile, 0, 10, None, None).0.len(), 20);
    assert_eq!(drive(TaskKind::FsOps, 0, 10, None, None).0.len(), 41);
    assert_eq!(drive(TaskKind::RaceCondition, 0, 10, None, None).0.len(), 20);
}

#[test]
fn every_task_path_is_under_stress() {
    for kind in [TaskKind::IndependentFiles, TaskKind::SharedFile, TaskKind::FsOps, TaskKind::RaceCondition] {
        let (log, r) = drive(kind, 17, 3, None, None);
        assert_eq!(r, Ok(()));
        for line in log {
            let path = line.split(' ').nth(1).unwrap();
            assert!(path.starts_with("/stress/"), "{line}");
        }
    }
}
