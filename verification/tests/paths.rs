use server_supervisor::paths::{containing_dir, join, parent};

#[test]
fn join_puts_a_separator_between() {
    assert_eq!(join("/Users/ada", ".nvm/versions/node"), "/Users/ada/.nvm/versions/node");
}

#[test]
fn join_adds_no_second_separator() {
    assert_eq!(join("/Users/ada/", "Desktop"), "/Users/ada/Desktop");
    assert_eq!(join("/", "bin"), "/bin");
}

#[test]
fn join_to_the_empty_path_is_the_relative_path() {
    assert_eq!(join("", "bin/npm"), "bin/npm");
}

#[test]
fn join_of_an_absolute_path_replaces_the_base() {
    assert_eq!(join("/Users/ada", "/opt/tool"), "/opt/tool");
}

#[test]
fn join_of_the_empty_path_ends_in_a_separator() {
    assert_eq!(join("a", ""), "a/");
    assert_eq!(join("", ""), "");
}

#[test]
fn join_agrees_with_the_standard_library_on_these() {
    let cases = [
        ("/Users/ada", ".nvm/versions/node"),
        ("/Users/ada/", "x"),
        ("", "x/y"),
        ("a", ""),
        ("a", "/b"),
        ("/", "b"),
        ("/opt/app/bin", "../../server"),
    ];
    for (base, rel) in cases {
        let expected = std::path::Path::new(base).join(rel);
        assert_eq!(join(base, rel), expected.to_str().unwrap());
    }
}

#[test]
fn parent_drops_the_last_name() {
    assert_eq!(parent("/usr/local/bin/npm"), Some("/usr/local/bin".to_string()));
    assert_eq!(parent("a/b"), Some("a".to_string()));
}

#[test]
fn parent_of_a_name_under_the_root_is_the_root() {
    assert_eq!(parent("/npm"), Some("/".to_string()));
}

#[test]
fn parent_of_a_single_name_is_empty() {
    assert_eq!(parent("npm"), Some(String::new()));
}

#[test]
fn parent_is_missing_without_a_name() {
    assert_eq!(parent(""), None);
    assert_eq!(parent("/"), None);
    assert_eq!(parent("///"), None);
}

#[test]
fn parent_passes_over_separators_at_the_end_and_in_a_row() {
    assert_eq!(parent("/usr/bin/"), Some("/usr".to_string()));
    assert_eq!(parent("a//b"), Some("a".to_string()));
    assert_eq!(parent("a/"), Some(String::new()));
}

#[test]
fn parent_agrees_with_the_standard_library_on_these() {
    let cases = [
        "/usr/local/bin/npm",
        "/npm",
        "npm",
        "",
        "/",
        "/usr/bin/",
        "a//b",
        "a/",
        "./a",
        "..",
        ".",
        "./",
        "./.",
        "/.",
        "a/.",
        "a/./",
        "a/./b",
        "/./a",
        "/a/.",
        "a/..",
        "a/b/..",
        "./..",
        "a/.//b",
        "a/.b/.",
        "a/b.",
        "a/.b",
        "/usr/local/./bin/npm",
        ".nvm/versions/node/v20.18.0/bin/npm",
        "/Applications/App.app/Contents/MacOS/app",
    ];
    for path in cases {
        let expected = std::path::Path::new(path).parent().map(|p| p.to_str().unwrap().to_string());
        assert_eq!(parent(path), expected, "parent of {:?}", path);
    }
}

#[test]
fn parent_passes_over_the_name_that_says_nothing() {
    assert_eq!(parent("a/./b"), Some("a".to_string()));
    assert_eq!(parent("a/."), Some(String::new()));
    assert_eq!(parent("/."), None);
    assert_eq!(parent("./a"), Some(".".to_string()));
    assert_eq!(parent("a/.."), Some("a".to_string()));
}

#[test]
fn parent_handles_text_beyond_ascii() {
    assert_eq!(parent("/Users/zoë/bin/npm"), Some("/Users/zoë/bin".to_string()));
}

#[test]
fn containing_dir_is_the_parent_or_the_path_itself() {
    assert_eq!(containing_dir("/opt/homebrew/bin/npm"), "/opt/homebrew/bin");
    assert_eq!(containing_dir("npm"), "");
    assert_eq!(containing_dir("/"), "/");
    assert_eq!(containing_dir(""), "");
}
