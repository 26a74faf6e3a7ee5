use server_supervisor::host::{Answer, Binding, HostFacts, Listing, Query};
use server_supervisor::toolchain::{
    common_place, find_npm, in_version, pinned, usable, versions_dir, ToolchainSearch,
    COMMON_PLACES,
};

fn toolchain_entry(key: &str, value: &str) -> Binding {
    Binding { key: key.to_string(), value: value.to_string() }
}

fn toolchain_home_host() -> HostFacts {
    let mut host = HostFacts::new();
    host.variables.push(toolchain_entry("HOME", "/Users/ada"));
    host
}

#[test]
fn the_well_known_places_in_their_order() {
    assert_eq!(COMMON_PLACES, 3);
    assert_eq!(common_place(0), "/usr/local/bin/npm");
    assert_eq!(common_place(1), "/opt/homebrew/bin/npm");
    assert_eq!(common_place(2), "/usr/bin/npm");
}

#[test]
fn the_places_under_the_home_directory() {
    assert_eq!(versions_dir("/Users/ada"), "/Users/ada/.nvm/versions/node");
    assert_eq!(pinned("/Users/ada"), "/Users/ada/.nvm/versions/node/v20.18.0/bin/npm");
    assert_eq!(
        in_version("/Users/ada", "v18.1.0"),
        "/Users/ada/.nvm/versions/node/v18.1.0/bin/npm"
    );
}

#[test]
fn an_empty_home_directory_gives_relative_places() {
    assert_eq!(pinned(""), ".nvm/versions/node/v20.18.0/bin/npm");
}

#[test]
fn output_is_usable_once_trimmed_and_not_empty() {
    assert_eq!(usable(Some("/usr/local/bin/npm\n".to_string())), Some("/usr/local/bin/npm".to_string()));
    assert_eq!(usable(Some("  \n".to_string())), None);
    assert_eq!(usable(Some(String::new())), None);
    assert_eq!(usable(None), None);
}

#[test]
fn nothing_anywhere_means_not_found() {
    assert_eq!(find_npm(&HostFacts::new()), None);
    assert_eq!(find_npm(&toolchain_home_host()), None);
}

#[test]
fn the_search_path_wins_over_every_place() {
    let mut host = toolchain_home_host();
    host.programs.push(toolchain_entry("npm", "/custom/bin/npm\n"));
    host.existing.push("/usr/local/bin/npm".to_string());
    host.existing.push("/Users/ada/.nvm/versions/node/v20.18.0/bin/npm".to_string());
    assert_eq!(find_npm(&host), Some("/custom/bin/npm".to_string()));
}

#[test]
fn an_empty_lookup_falls_through_to_the_places() {
    let mut host = HostFacts::new();
    host.programs.push(toolchain_entry("npm", "\n"));
    host.existing.push("/usr/bin/npm".to_string());
    assert_eq!(find_npm(&host), Some("/usr/bin/npm".to_string()));
}

#[test]
fn a_lookup_of_another_program_does_not_count() {
    let mut host = HostFacts::new();
    host.programs.push(toolchain_entry("node", "/usr/local/bin/node\n"));
    assert_eq!(find_npm(&host), None);
}

#[test]
fn the_first_well_known_place_that_is_there_wins() {
    let mut host = HostFacts::new();
    host.existing.push("/usr/bin/npm".to_string());
    host.existing.push("/opt/homebrew/bin/npm".to_string());
    assert_eq!(find_npm(&host), Some("/opt/homebrew/bin/npm".to_string()));
}

#[test]
fn a_well_known_place_wins_over_a_scanned_version() {
    let mut host = toolchain_home_host();
    host.existing.push("/opt/homebrew/bin/npm".to_string());
    host.directories.push(Listing {
        dir: "/Users/ada/.nvm/versions/node".to_string(),
        names: vec!["v18.1.0".to_string()],
    });
    host.existing.push("/Users/ada/.nvm/versions/node/v18.1.0/bin/npm".to_string());
    assert_eq!(find_npm(&host), Some("/opt/homebrew/bin/npm".to_string()));
}

#[test]
fn the_pinned_version_wins_over_a_scanned_version() {
    let mut host = toolchain_home_host();
    host.directories.push(Listing {
        dir: "/Users/ada/.nvm/versions/node".to_string(),
        names: vec!["v18.1.0".to_string(), "v20.18.0".to_string()],
    });
    host.existing.push("/Users/ada/.nvm/versions/node/v18.1.0/bin/npm".to_string());
    host.existing.push("/Users/ada/.nvm/versions/node/v20.18.0/bin/npm".to_string());
    assert_eq!(
        find_npm(&host),
        Some("/Users/ada/.nvm/versions/node/v20.18.0/bin/npm".to_string())
    );
}

#[test]
fn the_first_version_that_holds_the_program_wins() {
    let mut host = toolchain_home_host();
    host.directories.push(Listing {
        dir: "/Users/ada/.nvm/versions/node".to_string(),
        names: vec!["v16.0.0".to_string(), "v22.1.0".to_string(), "v18.1.0".to_string()],
    });
    host.existing.push("/Users/ada/.nvm/versions/node/v18.1.0/bin/npm".to_string());
    host.existing.push("/Users/ada/.nvm/versions/node/v22.1.0/bin/npm".to_string());
    assert_eq!(
        find_npm(&host),
        Some("/Users/ada/.nvm/versions/node/v22.1.0/bin/npm".to_string())
    );
}

#[test]
fn versions_are_not_scanned_without_a_home_directory() {
    let mut host = HostFacts::new();
    host.directories.push(Listing {
        dir: ".nvm/versions/node".to_string(),
        names: vec!["v18.1.0".to_string()],
    });
    host.existing.push(".nvm/versions/node/v18.1.0/bin/npm".to_string());
    assert_eq!(find_npm(&host), None);
}

#[test]
fn a_directory_that_cannot_be_read_means_not_found() {
    let mut host = toolchain_home_host();
    host.existing.push("/Users/ada/.nvm/versions/node/v18.1.0/bin/npm".to_string());
    assert_eq!(find_npm(&host), None);
}

#[test]
fn the_search_asks_one_thing_after_the_other() {
    let state = ToolchainSearch::begin();
    assert_eq!(state.query(), Some(Query::Which("npm".to_string())));
    let state = state.advance(Answer::Text(None));
    assert_eq!(state.query(), Some(Query::Exists("/usr/local/bin/npm".to_string())));
    let state = state.advance(Answer::Flag(false));
    assert_eq!(state.query(), Some(Query::Exists("/opt/homebrew/bin/npm".to_string())));
    let state = state.advance(Answer::Flag(false));
    assert_eq!(state.query(), Some(Query::Exists("/usr/bin/npm".to_string())));
    let state = state.advance(Answer::Flag(false));
    assert_eq!(state.query(), Some(Query::Variable("HOME".to_string())));
    let state = state.advance(Answer::Text(Some("/Users/ada".to_string())));
    assert_eq!(
        state.query(),
        Some(Query::Exists("/Users/ada/.nvm/versions/node/v20.18.0/bin/npm".to_string()))
    );
    let state = state.advance(Answer::Flag(false));
    assert_eq!(state.query(), Some(Query::Entries("/Users/ada/.nvm/versions/node".to_string())));
    let state = state.advance(Answer::Names(Some(vec!["v18.1.0".to_string()])));
    assert_eq!(
        state.query(),
        Some(Query::Exists("/Users/ada/.nvm/versions/node/v18.1.0/bin/npm".to_string()))
    );
    let state = state.advance(Answer::Flag(true));
    assert_eq!(state.query(), None);
    assert_eq!(
        state.result(),
        Some("/Users/ada/.nvm/versions/node/v18.1.0/bin/npm".to_string())
    );
}

#[test]
fn nothing_is_asked_after_the_first_match() {
    let state = ToolchainSearch::begin().advance(Answer::Text(Some(" /bin/npm \n".to_string())));
    assert_eq!(state, ToolchainSearch::Found("/bin/npm".to_string()));
    assert_eq!(state.query(), None);
    let state = state.advance(Answer::Flag(false));
    assert_eq!(state.result(), Some("/bin/npm".to_string()));
}

#[test]
fn an_answer_of_the_wrong_kind_counts_as_no() {
    let state = ToolchainSearch::begin().advance(Answer::Flag(true));
    assert_eq!(state, ToolchainSearch::Common { index: 0 });
    let state = state.advance(Answer::Text(Some("yes".to_string())));
    assert_eq!(state, ToolchainSearch::Common { index: 1 });
}

#[test]
fn an_empty_versions_directory_ends_the_search() {
    let state = ToolchainSearch::Listing { home: "/Users/ada".to_string() };
    let state = state.advance(Answer::Names(Some(Vec::new())));
    assert_eq!(state, ToolchainSearch::NotFound);
    assert_eq!(state.result(), None);
}

#[test]
fn a_state_beyond_its_list_stands_for_the_next() {
    let state = ToolchainSearch::Common { index: 7 };
    assert_eq!(state.query(), Some(Query::Variable("HOME".to_string())));
    assert_eq!(state.advance(Answer::Text(None)), ToolchainSearch::NotFound);
    let state = ToolchainSearch::Versions { home: "/h".to_string(), names: Vec::new(), index: 0 };
    assert_eq!(state.query(), None);
    assert_eq!(state.result(), None);
}
