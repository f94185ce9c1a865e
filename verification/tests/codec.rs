use automatic::interactive_list::InteractiveList;
use automatic::run::{ExitStatus, Run, RunStatus};
use automatic::promiscuous_list::PromiscuousList;
use automatic::runitem::RunItem;
use automatic::script::{
    List, Script, missing_script_message, open_error_message, read_error_message,
};
use automatic::silent_list::SilentList;
use automatic::yaml::{parse_list, render_list};

#[test]
fn serde_script() {
    let item = List::Promiscuous(PromiscuousList::new(vec![]));

    let encoded = render_list(&item);

    assert_eq!(encoded, "---\nPromiscuous:\n  items: []".to_string());

    let decoded: List = parse_list(&encoded).unwrap();

    assert_eq!(decoded, item);

    let items = List::Promiscuous(PromiscuousList::new(vec![
        RunItem::new("true".to_string(), vec![]),
        RunItem::new("true".to_string(), vec![]),
        RunItem::new("true".to_string(), vec![]),
    ]));

    let encoded = render_list(&items);

    assert_eq!(
        encoded,
        "---\nPromiscuous:\
         \n  items:\
         \n    - name: \"true\"\
         \n      args: []\
         \n    - name: \"true\"\
         \n      args: []\
         \n    - name: \"true\"\
         \n      args: []"
            .to_string()
    );

    let decoded: List = parse_list(&encoded).unwrap();

    assert_eq!(decoded, items);
}

#[test]
fn round_trip_keeps_every_policy_tag() {
    let items = || {
        vec![RunItem::new(
            "prog".to_string(),
            vec!["a".to_string(), "b".to_string()],
        )]
    };

    let promiscuous = List::Promiscuous(PromiscuousList::new(items()));
    assert_eq!(parse_list(&render_list(&promiscuous)).unwrap(), promiscuous);

    let silent = List::Silent(SilentList::new(items()));
    assert_eq!(parse_list(&render_list(&silent)).unwrap(), silent);

    let interactive = List::Interactive(InteractiveList::new(items()));
    assert_eq!(parse_list(&render_list(&interactive)).unwrap(), interactive);
}

#[test]
fn round_trip_keeps_special_characters() {
    let item = RunItem::new(
        "we\"ird \\name\nwith\tcontrol\rchars".to_string(),
        vec!["".to_string(), "a b".to_string(), "\\\"\n".to_string()],
    );
    let list = List::Silent(SilentList::new(vec![item]));
    assert_eq!(parse_list(&render_list(&list)).unwrap(), list);
}

#[test]
fn rendered_args_are_indented_entries() {
    let list = List::Silent(SilentList::new(vec![RunItem::new(
        "prog".to_string(),
        vec!["x".to_string(), "y".to_string()],
    )]));
    assert_eq!(
        render_list(&list),
        "---\nSilent:\
         \n  items:\
         \n    - name: \"prog\"\
         \n      args:\
         \n        - \"x\"\
         \n        - \"y\""
            .to_string()
    );
}

#[test]
fn parse_rejects_non_documents() {
    let expected = Err("fail to parse script: the document does not describe a run list".to_string());
    assert_eq!(parse_list(""), expected.clone());
    assert_eq!(parse_list("not a script"), expected.clone());
    assert_eq!(parse_list("---\nPromiscuous:\n  items: [] trailing"), expected.clone());
    assert_eq!(parse_list("---\nUnknown:\n  items: []"), expected);
}

#[test]
fn script_holds_its_path() {
    let script = Script::new("scripts/run.yaml".to_string());
    assert_eq!(script.path, "scripts/run.yaml".to_string());
}

#[test]
fn loader_messages_are_exact() {
    assert_eq!(
        missing_script_message(&"".to_string()),
        "Script:  doesn't exist".to_string()
    );
    assert_eq!(
        missing_script_message(&"a.yaml".to_string()),
        "Script: a.yaml doesn't exist".to_string()
    );
    assert_eq!(
        open_error_message(&"Permission denied (os error 13)".to_string()),
        "fail to open script with error: Permission denied (os error 13)".to_string()
    );
    assert_eq!(
        read_error_message(&"Is a directory (os error 21)".to_string()),
        "fail to read script with error: Is a directory (os error 21)".to_string()
    );
}

#[test]
fn parsed_list_runs() {
    let doc = "---\nSilent:\n  items:\n    - name: \"true\"\n      args: []";
    let list = parse_list(doc).unwrap();
    let result = list.run().status().expect("failed to execute process");
    assert!(result.success());
}
