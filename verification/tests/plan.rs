use tokio_browser::plan::{first_error, stress_concurrency, stress_plan, stress_suite, SuiteStep};
use tokio_browser::task::TaskKind;

#[test]
fn stress_runs_only_when_asked_for() {
    assert_eq!(stress_plan(None), None);
    assert_eq!(stress_plan(Some(0)), None);
    assert_eq!(stress_plan(Some(1)), Some(1));
    assert_eq!(stress_plan(Some(250)), Some(250));
}

#[test]
fn concurrency_is_fifty() {
    assert_eq!(stress_concurrency(), 50);
}

#[test]
fn suite_order() {
    let suite = stress_suite();
    assert_eq!(suite.len(), 5);
    let described: Vec<String> = suite
        .iter()
        .map(|s| match s {
            SuiteStep::RunTasks(kind, name) => format!("{kind:?}: {name}"),
            SuiteStep::CreateDirAll(p) => format!("mkdir {p}"),
        })
        .collect();
    assert_eq!(
        described,
        vec![
            "IndependentFiles: Stress test (independent files)",
            "mkdir /stress",
            "SharedFile: Shared file stress test",
            "FsOps: FS ops stress test (create/move/delete)",
            "RaceCondition: Race condition stress test (same file create/delete/write)",
        ]
    );
    assert!(matches!(suite[0], SuiteStep::RunTasks(TaskKind::IndependentFiles, _)));
}

#[test]
fn first_error_in_order() {
    assert_eq!(first_error(&vec![]), Ok(()));
    assert_eq!(first_error(&vec![Ok(()), Ok(())]), Ok(()));
    assert_eq!(
        first_error(&vec![Ok(()), Err("b".to_string()), Err("c".to_string())]),
        Err("b".to_string())
    );
    assert_eq!(first_error(&vec![Err("a".to_string())]), Err("a".to_string()));
}
