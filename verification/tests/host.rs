use server_supervisor::host::{clone_names, Answer, Binding, HostFacts, Listing, Query};

fn host_entry(key: &str, value: &str) -> Binding {
    Binding { key: key.to_string(), value: value.to_string() }
}

#[test]
fn an_empty_machine_says_no_to_everything() {
    let host = HostFacts::new();
    assert_eq!(host.answer(&Query::Listening(4847)), Answer::Flag(false));
    assert_eq!(host.answer(&Query::Which("npm".to_string())), Answer::Text(None));
    assert_eq!(host.answer(&Query::Variable("HOME".to_string())), Answer::Text(None));
    assert_eq!(host.answer(&Query::Exists("/".to_string())), Answer::Flag(false));
    assert_eq!(host.answer(&Query::Entries("/".to_string())), Answer::Names(None));
    assert_eq!(host.answer(&Query::Executable), Answer::Text(None));
    assert_eq!(host.answer(&Query::Canonical("/".to_string())), Answer::Text(None));
}

#[test]
fn a_machine_answers_from_what_it_holds() {
    let mut host = HostFacts::new();
    host.listening.push(80);
    host.programs.push(host_entry("npm", "/bin/npm\n"));
    host.variables.push(host_entry("HOME", "/root"));
    host.existing.push("/bin/npm".to_string());
    host.directories.push(Listing { dir: "/d".to_string(), names: vec!["a".to_string(), "b".to_string()] });
    host.executable = Some("/bin/app".to_string());
    host.canonical.push(host_entry("/bin/../bin", "/bin"));
    assert_eq!(host.answer(&Query::Listening(80)), Answer::Flag(true));
    assert_eq!(host.answer(&Query::Listening(81)), Answer::Flag(false));
    assert_eq!(host.answer(&Query::Which("npm".to_string())), Answer::Text(Some("/bin/npm\n".to_string())));
    assert_eq!(host.answer(&Query::Variable("HOME".to_string())), Answer::Text(Some("/root".to_string())));
    assert_eq!(host.answer(&Query::Variable("PATH".to_string())), Answer::Text(None));
    assert_eq!(host.answer(&Query::Exists("/bin/npm".to_string())), Answer::Flag(true));
    assert_eq!(host.answer(&Query::Exists("/bin".to_string())), Answer::Flag(false));
    assert_eq!(
        host.answer(&Query::Entries("/d".to_string())),
        Answer::Names(Some(vec!["a".to_string(), "b".to_string()]))
    );
    assert_eq!(host.answer(&Query::Executable), Answer::Text(Some("/bin/app".to_string())));
    assert_eq!(
        host.answer(&Query::Canonical("/bin/../bin".to_string())),
        Answer::Text(Some("/bin".to_string()))
    );
}

#[test]
fn the_first_entry_under_a_key_counts() {
    let mut host = HostFacts::new();
    host.variables.push(host_entry("HOME", "/first"));
    host.variables.push(host_entry("HOME", "/second"));
    assert_eq!(host.answer(&Query::Variable("HOME".to_string())), Answer::Text(Some("/first".to_string())));
}

#[test]
fn an_answer_is_read_as_what_is_asked_for() {
    assert!(Answer::Flag(true).into_flag());
    assert!(!Answer::Flag(false).into_flag());
    assert!(!Answer::Text(Some("true".to_string())).into_flag());
    assert_eq!(Answer::Text(Some("x".to_string())).into_text(), Some("x".to_string()));
    assert_eq!(Answer::Flag(true).into_text(), None);
    assert_eq!(Answer::Names(Some(vec!["n".to_string()])).into_names(), Some(vec!["n".to_string()]));
    assert_eq!(Answer::Text(None).into_names(), None);
}

#[test]
fn a_copy_of_names_holds_the_same_names() {
    let names = vec!["v1".to_string(), "v2".to_string()];
    assert_eq!(clone_names(&names), names);
    assert_eq!(clone_names(&Vec::new()), Vec::<String>::new());
}
