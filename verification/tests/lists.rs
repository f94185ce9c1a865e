use automatic::interactive_list::InteractiveList;
use automatic::promiscuous_list::PromiscuousList;
use automatic::run::{ExitStatus, Run, RunStatus};
use automatic::runitem::RunItem;
use automatic::silent_list::SilentList;

#[test]
fn silent_list_success_run() {
    let items = vec![
        RunItem::new("true".to_string(), vec![]),
        RunItem::new("true".to_string(), vec![]),
        RunItem::new("true".to_string(), vec![]),
    ];

    let result = SilentList::new(items)
        .run()
        .status()
        .expect("failed to execute process");
    assert!(result.success());
}

#[test]
fn silent_list_fail_run() {
    let items = vec![
        RunItem::new("true".to_string(), vec![]),
        RunItem::new("bla bla".to_string(), vec![]),
        RunItem::new("true".to_string(), vec![]),
    ];

    let runner = SilentList::new(items);
    assert_eq!(
        runner.run().status(),
        Err("No such file or directory (os error 2)".to_string())
    );

    let items = vec![
        RunItem::new("true".to_string(), vec![]),
        RunItem::new("false".to_string(), vec![]),
        RunItem::new("true".to_string(), vec![]),
    ];

    let runner = SilentList::new(items);
    assert_eq!(
        runner.run().status(),
        Err("runned item return fail execution state with code: 1".to_string())
    );
}

#[test]
fn interactive_list_success_run() {
    let items = vec![
        RunItem::new("true".to_string(), vec![]),
        RunItem::new("true".to_string(), vec![]),
        RunItem::new("true".to_string(), vec![]),
    ];

    let result = InteractiveList::new(items)
        .run()
        .status()
        .expect("failed to execute process");
    assert!(result.success());
}

#[test]
fn interactive_list_fail_run() {
    let items = vec![
        RunItem::new("true".to_string(), vec![]),
        RunItem::new("bla bla".to_string(), vec![]),
        RunItem::new("true".to_string(), vec![]),
    ];

    let runner = InteractiveList::new(items);
    assert_eq!(
        runner.run().status(),
        Err("No such file or directory (os error 2)".to_string())
    );

    let items = vec![
        RunItem::new("true".to_string(), vec![]),
        RunItem::new("false".to_string(), vec![]),
        RunItem::new("true".to_string(), vec![]),
    ];

    let runner = InteractiveList::new(items);
    assert_eq!(
        runner.run().status(),
        Err("runned item return fail execution state with code: 1".to_string())
    );
}

#[test]
fn promiscuous_list_success_run() {
    let items = vec![
        RunItem::new("true".to_string(), vec![]),
        RunItem::new("true".to_string(), vec![]),
        RunItem::new("true".to_string(), vec![]),
    ];

    let result = PromiscuousList::new(items)
        .run()
        .status()
        .expect("failed to execute process");
    assert!(result.success());
}

#[test]
fn promiscuous_list_fail_run() {
    let items = vec![
        RunItem::new("true".to_string(), vec![]),
        RunItem::new("bla bla".to_string(), vec![]),
        RunItem::new("true".to_string(), vec![]),
    ];

    let runner = PromiscuousList::new(items);
    assert_eq!(
        runner.run().status(),
        Err("No such file or directory (os error 2)".to_string())
    );
}

#[test]
fn promiscuous_list_nonzero_exit_carries_status() {
    let items = vec![
        RunItem::new("true".to_string(), vec![]),
        RunItem::new("false".to_string(), vec![]),
        RunItem::new("true".to_string(), vec![]),
    ];

    let result = PromiscuousList::new(items)
        .run()
        .status()
        .expect("failed to execute process");
    assert!(!result.success());
    assert_eq!(result.code(), Some(1));
}

#[test]
fn empty_list_succeeds_under_every_policy() {
    let silent = SilentList::new(vec![]).run().status().expect("empty silent list failed");
    assert!(silent.success());
    assert_eq!(silent.code(), None);

    let interactive = InteractiveList::new(vec![])
        .run()
        .status()
        .expect("empty interactive list failed");
    assert!(interactive.success());
    assert_eq!(interactive.code(), None);

    let promiscuous = PromiscuousList::new(vec![])
        .run()
        .status()
        .expect("empty promiscuous list failed");
    assert!(promiscuous.success());
    assert_eq!(promiscuous.code(), None);
}

#[test]
fn missing_program_aborts_under_every_policy() {
    let items = || {
        vec![
            RunItem::new("true".to_string(), vec![]),
            RunItem::new("this-program-does-not-exist".to_string(), vec![]),
            RunItem::new("true".to_string(), vec![]),
        ]
    };
    let expected = Err("No such file or directory (os error 2)".to_string());

    assert_eq!(SilentList::new(items()).run().status(), expected);
    assert_eq!(InteractiveList::new(items()).run().status(), expected);
    assert_eq!(PromiscuousList::new(items()).run().status(), expected);
}

#[test]
fn signal_terminated_item_aborts_with_its_own_message() {
    let items = vec![
        RunItem::new(
            "sh".to_string(),
            vec!["-c".to_string(), "kill -9 $$".to_string()],
        ),
        RunItem::new("true".to_string(), vec![]),
    ];
    assert_eq!(
        SilentList::new(items).run().status(),
        Err("runned item terminated by signal: 9".to_string())
    );
}
