use datatest::error::RenderError;
use datatest::files::{iterate_directory, WalkEntry};
use datatest::names::{derive_test_name, join_name, real_name};
use datatest::pattern::PathPattern;
use datatest::termination::{assert_test_result, Termination};

#[test]
fn crate_name_is_stripped() {
    assert_eq!(real_name("krate::module::test"), "module::test");
    assert_eq!(real_name("krate::test"), "test");
}

#[test]
fn only_the_first_segment_is_stripped() {
    assert_eq!(real_name("a::b::c::d"), "b::c::d");
    assert_eq!(real_name(real_name("a::b::c::d")), "c::d");
}

#[test]
fn name_without_separator_is_kept() {
    assert_eq!(real_name("test"), "test");
    assert_eq!(real_name("a:b"), "a:b");
    assert_eq!(real_name(""), "");
    assert_eq!(real_name(":"), ":");
}

#[test]
fn separator_at_either_end() {
    assert_eq!(real_name("::test"), "test");
    assert_eq!(real_name("krate::"), "");
    assert_eq!(real_name("::"), "");
}

#[test]
fn three_colons_are_split_at_the_first_two() {
    assert_eq!(real_name("a:::b"), ":b");
    assert_eq!(real_name("a::::b"), "::b");
}

#[test]
fn names_need_not_be_ascii() {
    assert_eq!(real_name("käse::größe::x"), "größe::x");
}

#[test]
fn child_is_named_after_its_parent() {
    assert_eq!(join_name("krate::m::parent", "child"), "m::parent::child");
    assert_eq!(join_name("parent", ""), "parent::");
}

#[test]
fn test_name_is_derived_from_the_path_below_the_root() {
    assert_eq!(
        derive_test_name("tests/data", "tests/data/sub/a.txt", "krate::files").unwrap(),
        "files::sub/a.txt"
    );
}

#[test]
fn root_may_end_in_a_slash() {
    assert_eq!(
        derive_test_name("tests/data/", "tests/data/a.txt", "krate::m::files").unwrap(),
        "m::files::a.txt"
    );
}

#[test]
fn root_itself_leaves_nothing() {
    assert_eq!(derive_test_name("data", "data", "files").unwrap(), "files::");
}

#[test]
fn path_outside_the_root_is_refused() {
    // "da" is a prefix of the text, not of the path
    match derive_test_name("da", "data/a.txt", "krate::files") {
        Err(RenderError::OutsideRoot { root, path }) => {
            assert_eq!(root, "da");
            assert_eq!(path, "data/a.txt");
        }
        _ => panic!("not refused"),
    }
}

#[test]
fn messages_of_errors() {
    let error = RenderError::OutsideRoot { root: "r".to_string(), path: "p/q".to_string() };
    assert_eq!(error.message(), "failed to strip prefix 'r' from path 'p/q'");
    let error = RenderError::InvalidPattern { pattern: "(".to_string() };
    assert_eq!(error.message(), "invalid regular expression: '('");
    let error = RenderError::NoTestCases {
        test: "krate::t".to_string(),
        root: "dir".to_string(),
        pattern: "x$".to_string(),
    };
    assert_eq!(
        error.message(),
        "no test cases found for test 'krate::t'. Scanned directory: 'dir' with pattern 'x$'"
    );
    assert_eq!(
        RenderError::NotStatic.message(),
        "not implemented: only static functions are supported"
    );
}

#[test]
fn pattern_must_be_a_regular_expression() {
    assert!(PathPattern::compile("foo(bar").is_none());
    assert!(PathPattern::compile(r"^(.*)\.txt$").is_some());
}

fn entry(is_file: bool, name: &str, path: &str) -> WalkEntry<u32> {
    WalkEntry {
        is_file,
        file_name: name.to_string(),
        path: path.len() as u32,
        text: path.to_string(),
    }
}

#[test]
fn directory_is_listed_without_hidden_files() {
    let files = iterate_directory(vec![
        entry(false, "d", "d"),
        entry(true, "b.txt", "d/b.txt"),
        entry(true, ".hidden", "d/.hidden"),
        entry(true, "\u{fffd}", "d/\u{fffd}"),
        entry(true, ".\u{fffd}", "d/.\u{fffd}"),
        entry(true, "a.txt", "d/a.txt.x"),
        entry(false, "sub", "d/sub"),
        entry(true, "...", "d/..."),
        entry(true, "c.", "d/.c/c."),
    ]);
    let texts: Vec<&str> = files.iter().map(|f| f.text.as_str()).collect();
    assert_eq!(texts, vec!["d/b.txt", "d/\u{fffd}", "d/a.txt.x", "d/.c/c."]);
    let paths: Vec<u32> = files.iter().map(|f| f.path).collect();
    assert_eq!(paths, vec![7, 5, 9, 7]);
}

#[test]
fn empty_directory_has_no_files() {
    let none: Vec<WalkEntry<u32>> = Vec::new();
    assert_eq!(iterate_directory(none).len(), 0);
}

#[test]
fn unit_is_success() {
    assert!(().is_success());
    assert_eq!(assert_test_result(()), Ok(()));
}

#[test]
fn ok_is_success() {
    let result: Result<u32, String> = Ok(0);
    assert!(result.is_success());
    assert_eq!(assert_test_result(result), Ok(()));
}

#[test]
fn err_is_failure() {
    let result: Result<(), u32> = Err(0);
    assert!(!result.is_success());
    assert_eq!(
        assert_test_result(result),
        Err("the test returned a termination value with a non-zero status code (255) \
             which indicates a failure")
    );
}
