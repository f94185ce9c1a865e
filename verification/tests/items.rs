use automatic::run::{ExitInfo, ExitStatus, Run, RunStatus, fail_message};
use automatic::runitem::RunItem;
use automatic::runner::Runner;

#[test]
fn runitem_create() {
    let result = RunItem::new("true".to_string(), vec![])
        .run()
        .status()
        .expect("failed to execute process");
    assert!(result.success());

    let result = RunItem::new(
        "true".to_string(),
        vec!["1", "2", "3"]
            .iter()
            .cloned()
            .map(String::from)
            .collect(),
    )
    .run()
    .status()
    .expect("failed to execute process");
    assert!(result.success());
}

#[test]
fn runitem_create_async() {
    let result = RunItem::new("true".to_string(), vec![])
        .run_async()
        .expect("failed to execute process")
        .wait()
        .expect("failed to wait");
    assert!(result.success());

    let result = RunItem::new(
        "true".to_string(),
        vec!["1", "2", "3"]
            .iter()
            .cloned()
            .map(String::from)
            .collect(),
    )
    .run_async()
    .expect("failed to execute process")
    .wait()
    .expect("failed to wait");
    assert!(result.success());
}

#[test]
fn runner_create() {
    let result = Runner::new("true".to_string(), vec![])
        .run()
        .expect("failed to execute process");
    assert!(result.status.success());

    let result = Runner::new(
        "true".to_string(),
        vec!["1".to_string(), "2".to_string(), "3".to_string()],
    )
    .run()
    .expect("failed to execute process");
    assert!(result.status.success());

    let result = Runner::new("false".to_string(), vec![])
        .run()
        .expect("failed to execute process");
    assert!(!result.status.success());

    let result = Runner::new(
        "false".to_string(),
        vec!["1".to_string(), "2".to_string(), "3".to_string()],
    )
    .run()
    .expect("failed to execute process");
    assert!(!result.status.success());
}

#[test]
fn runner_create_async() {
    let result = Runner::new("true".to_string(), vec![])
        .run_async()
        .expect("failed to execute process")
        .wait()
        .expect("failed to wait");
    assert!(result.success());

    let result = Runner::new(
        "true".to_string(),
        vec!["1".to_string(), "2".to_string(), "3".to_string()],
    )
    .run_async()
    .expect("failed to execute process")
    .wait()
    .expect("failed to wait");
    assert!(result.success());

    let result = Runner::new("false".to_string(), vec![])
        .run_async()
        .expect("failed to execute process")
        .wait()
        .expect("failed to wait");
    assert!(!result.success());

    let result = Runner::new(
        "false".to_string(),
        vec!["1".to_string(), "2".to_string(), "3".to_string()],
    )
    .run_async()
    .expect("failed to execute process")
    .wait()
    .expect("failed to wait");
    assert!(!result.success());
}

#[test]
fn wait_is_idempotent() {
    let mut handle = Runner::new("false".to_string(), vec![])
        .run_async()
        .expect("failed to execute process");
    let first = handle.wait().expect("failed to wait");
    let second = handle.wait().expect("failed to wait");
    assert_eq!(first, second);
    assert!(!second.success());
    assert_eq!(second.code(), Some(1));
}

#[test]
fn spawn_failure_is_reported_not_fatal() {
    let result = RunItem::new("this-program-does-not-exist".to_string(), vec![]).run_async();
    assert_eq!(
        result.err().map(|e| e.to_string()),
        Some("No such file or directory (os error 2)".to_string())
    );
}

#[test]
fn exit_code_is_reported_exactly() {
    let result = RunItem::new("sh".to_string(), vec!["-c".to_string(), "exit 3".to_string()])
        .run()
        .status()
        .expect("failed to execute process");
    assert!(!result.success());
    assert_eq!(result.code(), Some(3));
}

#[test]
fn pipe_output_into_input() {
    let first = RunItem::new("echo".to_string(), vec!["123456".to_string()]);
    let second = RunItem::new("cat".to_string(), vec![]);
    let out = first.pipe_into(&second).expect("failed to execute process");
    assert!(out.status.success());
    assert_eq!(out.stdout, b"123456\n".to_vec());
}

#[test]
fn captured_run_collects_output() {
    let out = Runner::new("echo".to_string(), vec!["hello".to_string()])
        .run()
        .expect("failed to execute process");
    assert!(out.status.success());
    assert_eq!(out.stdout, b"hello\n".to_vec());
    assert_eq!(out.stderr, b"".to_vec());
}

#[test]
fn failure_messages_are_exact() {
    assert_eq!(
        fail_message(&ExitInfo { success: false, code: Some(42), signal: None }),
        "runned item return fail execution state with code: 42".to_string()
    );
    assert_eq!(
        fail_message(&ExitInfo { success: false, code: Some(-5), signal: None }),
        "runned item return fail execution state with code: -5".to_string()
    );
    assert_eq!(
        fail_message(&ExitInfo { success: false, code: None, signal: Some(9) }),
        "runned item terminated by signal: 9".to_string()
    );
    assert_eq!(
        fail_message(&ExitInfo { success: false, code: None, signal: None }),
        "runned item return fail execution state with no available code".to_string()
    );
}

#[test]
fn signal_termination_is_explicit() {
    let item = RunItem::new(
        "sh".to_string(),
        vec!["-c".to_string(), "kill -9 $$".to_string()],
    );
    let result = item.run().status().expect("failed to execute process");
    assert!(!result.success());
    assert_eq!(result.code(), None);
    assert_eq!(result.signal, Some(9));
}

#[test]
fn default_exit_info_is_plain_success() {
    let d = ExitInfo::default();
    assert!(d.success());
    assert_eq!(d.code(), None);
    assert_eq!(d.signal, None);
}
