use server_supervisor::host::{Answer, Binding, HostFacts, Query};
use server_supervisor::server_dir::{
    get_server_path, manifest_in, override_variable, relative_from, usual_under, ServerSearch,
    RELATIVE_PLACES,
};

fn server_entry(key: &str, value: &str) -> Binding {
    Binding { key: key.to_string(), value: value.to_string() }
}

fn server_dev_host() -> HostFacts {
    let mut host = HostFacts::new();
    host.executable = Some("/work/app/src-tauri/target/debug/app".to_string());
    host
}

#[test]
fn the_names_that_the_search_goes_by() {
    assert_eq!(override_variable(), "CLAUDE_PM_SERVER_PATH");
    assert_eq!(usual_under("/Users/ada"), "/Users/ada/Desktop/projects/claudePM/server");
    assert_eq!(manifest_in("/work/server"), "/work/server/package.json");
    assert_eq!(RELATIVE_PLACES, 3);
    assert_eq!(relative_from("/x", 0), "/x/../../../../server");
    assert_eq!(relative_from("/x", 1), "/x/../../server");
    assert_eq!(relative_from("/x", 2), "/x/../../../server");
}

#[test]
fn nothing_anywhere_means_no_server_directory() {
    assert_eq!(get_server_path(&HostFacts::new()), None);
    assert_eq!(get_server_path(&server_dev_host()), None);
}

#[test]
fn the_override_wins_over_the_usual_place() {
    let mut host = HostFacts::new();
    host.variables.push(server_entry("CLAUDE_PM_SERVER_PATH", "/tmp/fakeserver"));
    host.variables.push(server_entry("HOME", "/Users/ada"));
    host.existing.push("/tmp/fakeserver".to_string());
    host.existing.push("/tmp/fakeserver/package.json".to_string());
    host.existing.push("/Users/ada/Desktop/projects/claudePM/server".to_string());
    host.existing.push("/Users/ada/Desktop/projects/claudePM/server/package.json".to_string());
    assert_eq!(get_server_path(&host), Some("/tmp/fakeserver".to_string()));
}

#[test]
fn an_override_that_is_not_there_is_passed_over() {
    let mut host = HostFacts::new();
    host.variables.push(server_entry("CLAUDE_PM_SERVER_PATH", "/tmp/fakeserver"));
    host.variables.push(server_entry("HOME", "/Users/ada"));
    host.existing.push("/Users/ada/Desktop/projects/claudePM/server".to_string());
    host.existing.push("/Users/ada/Desktop/projects/claudePM/server/package.json".to_string());
    assert_eq!(
        get_server_path(&host),
        Some("/Users/ada/Desktop/projects/claudePM/server".to_string())
    );
}

#[test]
fn an_override_without_the_manifest_is_rejected() {
    let mut host = HostFacts::new();
    host.variables.push(server_entry("CLAUDE_PM_SERVER_PATH", "/tmp/nomanifest"));
    host.variables.push(server_entry("HOME", "/Users/a"));
    host.existing.push("/tmp/nomanifest".to_string());
    assert_eq!(get_server_path(&host), None);
}

#[test]
fn an_override_without_the_manifest_is_passed_over() {
    let mut host = HostFacts::new();
    host.variables.push(server_entry("CLAUDE_PM_SERVER_PATH", "/tmp/nomanifest"));
    host.variables.push(server_entry("HOME", "/Users/ada"));
    host.existing.push("/tmp/nomanifest".to_string());
    host.existing.push("/Users/ada/Desktop/projects/claudePM/server".to_string());
    host.existing.push("/Users/ada/Desktop/projects/claudePM/server/package.json".to_string());
    assert_eq!(
        get_server_path(&host),
        Some("/Users/ada/Desktop/projects/claudePM/server".to_string())
    );
}

#[test]
fn an_override_must_be_there_itself() {
    let mut host = HostFacts::new();
    host.variables.push(server_entry("CLAUDE_PM_SERVER_PATH", "/tmp/fakeserver"));
    host.existing.push("/tmp/fakeserver/package.json".to_string());
    assert_eq!(get_server_path(&host), None);
}

#[test]
fn the_override_is_taken_as_it_stands() {
    let mut host = HostFacts::new();
    host.variables.push(server_entry("CLAUDE_PM_SERVER_PATH", "relative/dir"));
    host.existing.push("relative/dir".to_string());
    host.existing.push("relative/dir/package.json".to_string());
    assert_eq!(get_server_path(&host), Some("relative/dir".to_string()));
}

#[test]
fn the_usual_place_without_the_manifest_is_rejected() {
    let mut host = HostFacts::new();
    host.variables.push(server_entry("HOME", "/Users/ada"));
    host.existing.push("/Users/ada/Desktop/projects/claudePM/server".to_string());
    assert_eq!(get_server_path(&host), None);
}

#[test]
fn the_usual_place_without_the_manifest_is_passed_over() {
    let mut host = server_dev_host();
    host.variables.push(server_entry("HOME", "/Users/ada"));
    host.existing.push("/Users/ada/Desktop/projects/claudePM/server".to_string());
    host.canonical.push(server_entry(
        "/work/app/src-tauri/target/debug/../../../../server",
        "/work/server",
    ));
    host.existing.push("/work/server/package.json".to_string());
    assert_eq!(get_server_path(&host), Some("/work/server".to_string()));
}

#[test]
fn the_usual_place_wins_over_the_relative_places() {
    let mut host = server_dev_host();
    host.variables.push(server_entry("HOME", "/Users/ada"));
    host.existing.push("/Users/ada/Desktop/projects/claudePM/server".to_string());
    host.existing.push("/Users/ada/Desktop/projects/claudePM/server/package.json".to_string());
    host.canonical.push(server_entry(
        "/work/app/src-tauri/target/debug/../../../../server",
        "/work/server",
    ));
    host.existing.push("/work/server/package.json".to_string());
    assert_eq!(
        get_server_path(&host),
        Some("/Users/ada/Desktop/projects/claudePM/server".to_string())
    );
}

#[test]
fn a_relative_place_is_returned_in_its_canonical_form() {
    let mut host = server_dev_host();
    host.canonical.push(server_entry(
        "/work/app/src-tauri/target/debug/../../../../server",
        "/work/server",
    ));
    host.existing.push("/work/server/package.json".to_string());
    assert_eq!(get_server_path(&host), Some("/work/server".to_string()));
}

#[test]
fn a_directory_without_the_manifest_is_rejected() {
    let mut host = server_dev_host();
    host.canonical.push(server_entry(
        "/work/app/src-tauri/target/debug/../../../../server",
        "/work/server",
    ));
    host.existing.push("/work/server".to_string());
    assert_eq!(get_server_path(&host), None);
}

#[test]
fn the_search_goes_on_behind_a_directory_without_the_manifest() {
    let mut host = server_dev_host();
    host.canonical.push(server_entry(
        "/work/app/src-tauri/target/debug/../../../../server",
        "/work/server",
    ));
    host.existing.push("/work/server".to_string());
    host.canonical.push(server_entry(
        "/work/app/src-tauri/target/debug/../../../server",
        "/work/app/server",
    ));
    host.existing.push("/work/app/server/package.json".to_string());
    assert_eq!(get_server_path(&host), Some("/work/app/server".to_string()));
}

#[test]
fn the_relative_places_are_tried_in_their_order() {
    let mut host = server_dev_host();
    host.canonical.push(server_entry(
        "/work/app/src-tauri/target/debug/../../../server",
        "/work/app/server",
    ));
    host.existing.push("/work/app/server/package.json".to_string());
    host.canonical.push(server_entry(
        "/work/app/src-tauri/target/debug/../../server",
        "/work/app/src-tauri/server",
    ));
    host.existing.push("/work/app/src-tauri/server/package.json".to_string());
    assert_eq!(get_server_path(&host), Some("/work/app/src-tauri/server".to_string()));
}

#[test]
fn a_program_without_a_parent_has_no_relative_places() {
    let mut host = HostFacts::new();
    host.executable = Some("/".to_string());
    host.canonical.push(server_entry("/../../server", "/server"));
    host.existing.push("/server/package.json".to_string());
    assert_eq!(get_server_path(&host), None);
}

#[test]
fn the_search_for_the_server_asks_one_thing_after_the_other() {
    let state = ServerSearch::begin();
    assert_eq!(state.query(), Some(Query::Variable("CLAUDE_PM_SERVER_PATH".to_string())));
    let state = state.advance(Answer::Text(Some("/tmp/fakeserver".to_string())));
    assert_eq!(state.query(), Some(Query::Exists("/tmp/fakeserver".to_string())));
    let state = state.advance(Answer::Flag(false));
    assert_eq!(state.query(), Some(Query::Variable("HOME".to_string())));
    let state = state.advance(Answer::Text(Some("/Users/ada".to_string())));
    assert_eq!(
        state.query(),
        Some(Query::Exists("/Users/ada/Desktop/projects/claudePM/server".to_string()))
    );
    let state = state.advance(Answer::Flag(false));
    assert_eq!(state.query(), Some(Query::Executable));
    let state = state.advance(Answer::Text(Some("/a/b/c/d/e/app".to_string())));
    assert_eq!(state.query(), Some(Query::Canonical("/a/b/c/d/e/../../../../server".to_string())));
    let state = state.advance(Answer::Text(None));
    assert_eq!(state.query(), Some(Query::Canonical("/a/b/c/d/e/../../server".to_string())));
    let state = state.advance(Answer::Text(Some("/a/b/c/server".to_string())));
    assert_eq!(state.query(), Some(Query::Exists("/a/b/c/server/package.json".to_string())));
    let state = state.advance(Answer::Flag(false));
    assert_eq!(state.query(), Some(Query::Canonical("/a/b/c/d/e/../../../server".to_string())));
    let state = state.advance(Answer::Text(Some("/a/b/server".to_string())));
    assert_eq!(state.query(), Some(Query::Exists("/a/b/server/package.json".to_string())));
    let state = state.advance(Answer::Flag(true));
    assert_eq!(state.query(), None);
    assert_eq!(state.result(), Some("/a/b/server".to_string()));
}

#[test]
fn the_search_for_the_server_asks_for_the_manifest_at_every_place() {
    let state = ServerSearch::begin();
    let state = state.advance(Answer::Text(Some("/tmp/fakeserver".to_string())));
    assert_eq!(state.query(), Some(Query::Exists("/tmp/fakeserver".to_string())));
    let state = state.advance(Answer::Flag(true));
    assert_eq!(state.query(), Some(Query::Exists("/tmp/fakeserver/package.json".to_string())));
    assert_eq!(
        state.clone().advance(Answer::Flag(true)),
        ServerSearch::Found("/tmp/fakeserver".to_string())
    );
    let state = state.advance(Answer::Flag(false));
    assert_eq!(state.query(), Some(Query::Variable("HOME".to_string())));
    let state = state.advance(Answer::Text(Some("/Users/ada".to_string())));
    let state = state.advance(Answer::Flag(true));
    assert_eq!(
        state.query(),
        Some(Query::Exists("/Users/ada/Desktop/projects/claudePM/server/package.json".to_string()))
    );
    assert_eq!(
        state.clone().advance(Answer::Flag(true)),
        ServerSearch::Found("/Users/ada/Desktop/projects/claudePM/server".to_string())
    );
    let state = state.advance(Answer::Flag(false));
    assert_eq!(state.query(), Some(Query::Executable));
}

#[test]
fn the_search_for_the_server_ends_behind_the_last_place() {
    let state = ServerSearch::Resolving { dir: "/x".to_string(), index: 2 };
    let state = state.advance(Answer::Text(None));
    assert_eq!(state, ServerSearch::NotFound);
    assert_eq!(state.query(), None);
    assert_eq!(state.result(), None);
    let state = ServerSearch::Manifest {
        dir: "/x".to_string(),
        index: 2,
        canonical: "/server".to_string(),
    };
    assert_eq!(state.advance(Answer::Flag(false)), ServerSearch::NotFound);
}
