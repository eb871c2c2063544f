use datatest::data::{render_cases, render_data_test};
use datatest::descriptor::{
    DataTestDesc, DatatestTestDesc, FilesTestDesc, FilesTestFn, RegularShouldPanic,
    RegularTestDesc, TestDescriptor,
};
use datatest::error::RenderError;
use datatest::files::{
    add_cases, arrange_paths, iterate_directory, render_case, render_files_test,
    render_matching_files, WalkEntry,
};
use datatest::harness::{
    DataTestCaseDesc, DataTestFn, DynBenchFn, DynTestFn, FilesBenchFn, Harness, ShouldPanic,
    TestDesc, TestDescAndFn, TestFn, TestName, TestOpts, TestPath, TestType,
};
use datatest::pattern::PathPattern;
use datatest::registry::{check_test_runner, register, RegistrationNode, Registry};
use datatest::runner::{
    adjust_for_test_name, clone_testfn, conclude, list_descriptors, render_all,
    render_test_descriptor, runner, RunError,
};

/// Functions are numbers here, and paths are texts.
struct Numbers;

impl Harness for Numbers {
    type TestFn = u32;
    type BenchFn = u32;
    type FilesTestFn = u32;
    type FilesBenchFn = u32;
    type DataTestFn = u32;
    type DataBenchFn = u32;
    type Path = String;
    type IgnoreFn = fn(&String) -> bool;
    type DescribeFn = fn() -> Vec<DataTestCaseDesc<DataTestFn<u32, u32>>>;
}

fn walked(dir: &str, name: &str) -> WalkEntry<String> {
    let path = format!("{}/{}", dir, name);
    WalkEntry {
        is_file: true,
        file_name: name.to_string(),
        path: format!("raw {}", path),
        text: path,
    }
}

fn walk(root: &'static str) -> Vec<WalkEntry<String>> {
    match root {
        "data" => vec![
            WalkEntry {
                is_file: false,
                file_name: "data".to_string(),
                path: "raw data".to_string(),
                text: "data".to_string(),
            },
            walked("data", "one.txt"),
            walked("data", "one.out"),
            walked("data", ".two.txt"),
            walked("data/sub", "three.txt"),
        ],
        "moved" => vec![
            walked("moved", "one.txt"),
            walked("elsewhere", "two.txt"),
            walked("elsewhere", "three.txt"),
        ],
        _ => vec![],
    }
}

fn is_in_sub(path: &String) -> bool {
    path.contains("/sub/")
}

fn files_desc(root: &'static str, params: &'static [&'static str], pattern: usize) -> FilesTestDesc<Numbers> {
    FilesTestDesc {
        name: "krate::files",
        ignore: false,
        root,
        params,
        pattern,
        ignorefn: None,
        testfn: FilesTestFn::TestFn(7),
        source_file: "tests/files.rs",
    }
}

fn name_of(test: &TestDescAndFn<Numbers>) -> &str {
    match &test.desc.name {
        TestName::StaticTestName(name) => name,
        TestName::DynTestName(name) => name.as_str(),
    }
}

fn names_of(tests: &Vec<TestDescAndFn<Numbers>>) -> Vec<&str> {
    tests.iter().map(name_of).collect()
}

fn texts_of(paths: &Vec<TestPath<String>>) -> Vec<String> {
    paths
        .iter()
        .map(|path| match path {
            TestPath::Found(path) => format!("found {}", path),
            TestPath::Derived(text) => format!("derived {}", text),
        })
        .collect()
}

fn no_opts() -> TestOpts {
    TestOpts { filter: None, filter_exact: false }
}

const IN_OUT: &[&str] = &[r"^(.*)/([^/]*)\.txt$", "${1}/$2.out"];

#[test]
fn files_test_gives_a_test_per_matching_file() {
    let desc = files_desc("data", IN_OUT, 0);
    let mut rendered = Vec::new();
    render_files_test(&desc, &walk, &mut rendered).unwrap();
    assert_eq!(names_of(&rendered), vec!["files::one.txt", "files::sub/three.txt"]);
    for test in &rendered {
        assert!(!test.desc.ignore);
        assert_eq!(test.desc.should_panic, ShouldPanic::No);
        assert!(!test.desc.allow_fail);
        assert_eq!(test.desc.test_type, TestType::OfSource("tests/files.rs"));
        assert!(matches!(test.desc.name, TestName::DynTestName(_)));
    }
    match &rendered[1].testfn {
        TestFn::DynTestFn(DynTestFn::Files(7, paths)) => assert_eq!(
            texts_of(paths),
            vec!["found raw data/sub/three.txt", "derived data/sub/three.out"]
        ),
        _ => panic!("another function"),
    }
}

#[test]
fn pattern_may_be_any_parameter() {
    let desc = files_desc("data", &["${d}_a", "(?P<d>dat).*txt", "$$x", "gone $9"], 1);
    let mut rendered = Vec::new();
    render_files_test(&desc, &walk, &mut rendered).unwrap();
    match &rendered[0].testfn {
        TestFn::DynTestFn(DynTestFn::Files(7, paths)) => assert_eq!(
            texts_of(paths),
            vec!["derived dat_a", "found raw data/one.txt", "derived $x", "derived gone "]
        ),
        _ => panic!("another function"),
    }
}

#[test]
fn files_bench_keeps_its_paths() {
    let mut desc = files_desc("data", IN_OUT, 0);
    desc.testfn = FilesTestFn::BenchFn(9);
    let mut rendered = Vec::new();
    render_files_test(&desc, &walk, &mut rendered).unwrap();
    match &rendered[0].testfn {
        TestFn::DynBenchFn(DynBenchFn::Files(FilesBenchFn(9, paths))) => assert_eq!(
            texts_of(paths),
            vec!["found raw data/one.txt", "derived data/one.out"]
        ),
        _ => panic!("another function"),
    }
}

#[test]
fn files_are_ignored_one_by_one() {
    let mut desc = files_desc("data", IN_OUT, 0);
    desc.ignorefn = Some(is_in_sub);
    let mut rendered = Vec::new();
    render_files_test(&desc, &walk, &mut rendered).unwrap();
    assert_eq!(rendered.iter().map(|t| t.desc.ignore).collect::<Vec<_>>(), vec![false, true]);
}

fn not_to_be_asked(_path: &String) -> bool {
    panic!("asked about a path")
}

#[test]
fn ignored_files_test_gives_ignored_tests() {
    let mut desc = files_desc("data", IN_OUT, 0);
    desc.ignore = true;
    desc.ignorefn = Some(not_to_be_asked);
    let mut rendered = Vec::new();
    render_files_test(&desc, &walk, &mut rendered).unwrap();
    assert_eq!(rendered.iter().map(|t| t.desc.ignore).collect::<Vec<_>>(), vec![true, true]);
}

fn not_to_be_walked(_root: &'static str) -> Vec<WalkEntry<String>> {
    panic!("walked")
}

#[test]
fn invalid_pattern_is_refused_before_the_walk() {
    let desc = files_desc("data", &["x", "a(b"], 1);
    let mut rendered = Vec::new();
    match render_files_test(&desc, &not_to_be_walked, &mut rendered) {
        Err(RenderError::InvalidPattern { pattern }) => assert_eq!(pattern, "a(b"),
        _ => panic!("not refused"),
    }
    assert_eq!(rendered.len(), 0);
}

#[test]
fn pattern_that_matches_nothing_is_refused() {
    let desc = files_desc("data", &[r"\.tyt$"], 0);
    let mut rendered = Vec::new();
    match render_files_test(&desc, &walk, &mut rendered) {
        Err(RenderError::NoTestCases { test, root, pattern }) => {
            assert_eq!(test, "krate::files");
            assert_eq!(root, "data");
            assert_eq!(pattern, r"\.tyt$");
        }
        _ => panic!("not refused"),
    }
}

#[test]
fn hidden_files_are_not_matched() {
    let desc = files_desc("data", &["two"], 0);
    let mut rendered = Vec::new();
    assert!(matches!(
        render_files_test(&desc, &walk, &mut rendered),
        Err(RenderError::NoTestCases { .. })
    ));
}

#[test]
fn first_file_outside_the_root_is_reported() {
    let desc = files_desc("moved", &["txt"], 0);
    let mut rendered = Vec::new();
    match render_files_test(&desc, &walk, &mut rendered) {
        Err(RenderError::OutsideRoot { root, path }) => {
            assert_eq!(root, "moved");
            assert_eq!(path, "elsewhere/two.txt");
        }
        _ => panic!("not refused"),
    }
    assert_eq!(rendered.len(), 0);
}

#[test]
fn matching_files_are_rendered_after_what_is_there() {
    let desc = files_desc("data", IN_OUT, 0);
    let pattern = PathPattern::compile(IN_OUT[0]).unwrap();
    let mut rendered = vec![static_test("first", 1)];
    render_matching_files(&desc, &pattern, iterate_directory(walk("data")), &mut rendered).unwrap();
    assert_eq!(names_of(&rendered), vec!["first", "files::one.txt", "files::sub/three.txt"]);
}

#[test]
fn case_takes_its_name_and_ignore_flag() {
    let desc = files_desc("data", &["one"], 0);
    let paths = vec![TestPath::Derived("data/one".to_string())];
    let test = render_case(&desc, "some name".to_string(), paths, true);
    assert_eq!(name_of(&test), "some name");
    assert!(test.desc.ignore);
    match &test.testfn {
        TestFn::DynTestFn(DynTestFn::Files(7, paths)) => {
            assert_eq!(texts_of(paths), vec!["derived data/one"])
        }
        _ => panic!("another function"),
    }
}

#[test]
fn found_path_takes_the_place_of_the_pattern() {
    for (at, expected) in vec![
        (0, vec!["found f", "derived a", "derived b"]),
        (1, vec!["derived a", "found f", "derived b"]),
        (2, vec!["derived a", "derived b", "found f"]),
    ] {
        let derived = vec!["a".to_string(), "b".to_string()];
        assert_eq!(texts_of(&arrange_paths("f".to_string(), at, derived)), expected);
    }
}

#[test]
fn cases_are_added_at_the_end() {
    let desc = files_desc("data", &["one"], 0);
    let mut rendered = vec![static_test("first", 1)];
    let cases = vec![static_test("second", 2), static_test("third", 3)];
    assert!(add_cases(&desc, cases, &mut rendered).is_ok());
    assert_eq!(names_of(&rendered), vec!["first", "second", "third"]);
    assert!(matches!(
        add_cases(&desc, Vec::new(), &mut rendered),
        Err(RenderError::NoTestCases { .. })
    ));
    assert_eq!(rendered.len(), 3);
}

fn data_cases() -> Vec<DataTestCaseDesc<DataTestFn<u32, u32>>> {
    vec![
        DataTestCaseDesc {
            case: DataTestFn::TestFn(1),
            name: Some("first".to_string()),
            location: "cases.yaml, line 3".to_string(),
        },
        DataTestCaseDesc {
            case: DataTestFn::BenchFn(2),
            name: None,
            location: "cases.yaml, line 5".to_string(),
        },
    ]
}

fn data_desc() -> DataTestDesc<Numbers> {
    DataTestDesc {
        name: "krate::m::data",
        ignore: false,
        describefn: data_cases,
        source_file: "src/lib.rs",
    }
}

#[test]
fn data_test_gives_a_test_per_case() {
    let mut rendered = Vec::new();
    render_data_test(&data_desc(), &mut rendered);
    assert_eq!(
        names_of(&rendered),
        vec!["m::data::first (cases.yaml, line 3)", "m::data::cases.yaml, line 5"]
    );
    assert!(matches!(rendered[0].testfn, TestFn::DynTestFn(DynTestFn::Data(1))));
    assert!(matches!(rendered[1].testfn, TestFn::DynBenchFn(DynBenchFn::Data(2))));
    for test in &rendered {
        assert!(!test.desc.ignore);
        assert_eq!(test.desc.should_panic, ShouldPanic::No);
        assert!(!test.desc.allow_fail);
        assert_eq!(test.desc.test_type, TestType::OfSource("src/lib.rs"));
    }
}

#[test]
fn ignored_data_test_gives_ignored_tests() {
    let mut desc = data_desc();
    desc.ignore = true;
    let mut rendered = Vec::new();
    render_data_test(&desc, &mut rendered);
    assert!(rendered.iter().all(|t| t.desc.ignore));
    assert_eq!(rendered.len(), 2);
}

#[test]
fn data_test_without_cases_gives_no_tests() {
    let mut rendered = vec![static_test("first", 1)];
    render_cases(&data_desc(), Vec::new(), &mut rendered);
    assert_eq!(names_of(&rendered), vec!["first"]);
}

fn static_test(name: &'static str, number: u32) -> TestDescAndFn<Numbers> {
    TestDescAndFn {
        desc: TestDesc {
            name: TestName::StaticTestName(name),
            ignore: true,
            should_panic: ShouldPanic::YesWithMessage("boom"),
            allow_fail: true,
            test_type: TestType::UnitTest,
        },
        testfn: TestFn::StaticTestFn(number),
    }
}

fn regular_desc() -> RegularTestDesc<Numbers> {
    RegularTestDesc {
        name: "krate::regular",
        ignore: true,
        testfn: 5,
        should_panic: RegularShouldPanic::YesWithMessage("oops"),
        source_file: "src/regular.rs",
    }
}

#[test]
fn static_functions_are_copied() {
    let test: TestFn<Numbers> = TestFn::StaticTestFn(3);
    assert!(matches!(clone_testfn(&test), Ok(TestFn::StaticTestFn(3))));
    let bench: TestFn<Numbers> = TestFn::StaticBenchFn(4);
    assert!(matches!(clone_testfn(&bench), Ok(TestFn::StaticBenchFn(4))));
}

#[test]
fn functions_with_data_are_not_copied() {
    let test: TestFn<Numbers> = TestFn::DynTestFn(DynTestFn::Data(3));
    assert!(matches!(clone_testfn(&test), Err(RenderError::NotStatic)));
    let bench: TestFn<Numbers> = TestFn::DynBenchFn(DynBenchFn::Data(3));
    assert!(matches!(clone_testfn(&bench), Err(RenderError::NotStatic)));
}

#[test]
fn compiler_test_is_passed_on_as_it_is() {
    let test = static_test("a::b", 3);
    let mut rendered = Vec::new();
    let mut opts = TestOpts { filter: Some("b".to_string()), filter_exact: true };
    render_test_descriptor(test.as_datatest_desc(), &mut opts, &walk, &mut rendered).unwrap();
    assert_eq!(rendered.len(), 1);
    assert_eq!(rendered[0].desc, test.desc);
    assert!(matches!(rendered[0].testfn, TestFn::StaticTestFn(3)));
    assert_eq!(opts, TestOpts { filter: Some("b".to_string()), filter_exact: true });
}

#[test]
fn compiler_test_with_data_is_refused() {
    let mut test = static_test("a::b", 3);
    test.testfn = TestFn::DynTestFn(DynTestFn::Data(3));
    let mut rendered = Vec::new();
    assert!(matches!(
        render_test_descriptor(test.as_datatest_desc(), &mut no_opts(), &walk, &mut rendered),
        Err(RenderError::NotStatic)
    ));
    assert_eq!(rendered.len(), 0);
}

#[test]
fn regular_test_gives_one_test() {
    let desc = regular_desc();
    let mut rendered = Vec::new();
    render_test_descriptor(desc.as_datatest_desc(), &mut no_opts(), &walk, &mut rendered).unwrap();
    assert_eq!(rendered.len(), 1);
    assert_eq!(
        rendered[0].desc,
        TestDesc {
            name: TestName::StaticTestName("regular"),
            ignore: true,
            should_panic: ShouldPanic::YesWithMessage("oops"),
            allow_fail: false,
            test_type: TestType::OfSource("src/regular.rs"),
        }
    );
    assert!(matches!(rendered[0].testfn, TestFn::StaticTestFn(5)));
}

#[test]
fn should_panic_is_converted() {
    assert_eq!(ShouldPanic::from(RegularShouldPanic::No), ShouldPanic::No);
    assert_eq!(ShouldPanic::from(RegularShouldPanic::Yes), ShouldPanic::Yes);
    assert_eq!(
        ShouldPanic::from(RegularShouldPanic::YesWithMessage("m")),
        ShouldPanic::YesWithMessage("m")
    );
}

#[test]
fn descriptors_tell_their_kind() {
    let files = files_desc("data", IN_OUT, 0);
    assert!(matches!(files.as_datatest_desc(), DatatestTestDesc::FilesTest(_)));
    assert!(matches!(data_desc().as_datatest_desc(), DatatestTestDesc::DataTest(_)));
    assert!(matches!(regular_desc().as_datatest_desc(), DatatestTestDesc::RegularTest(_)));
    assert!(matches!(static_test("t", 1).as_datatest_desc(), DatatestTestDesc::Test(_)));
}

#[test]
fn exact_filter_on_a_parent_is_adjusted() {
    let mut opts = TestOpts { filter: Some("m::data".to_string()), filter_exact: true };
    adjust_for_test_name(&mut opts, "krate::m::data");
    assert_eq!(opts, TestOpts { filter: Some("m::data::".to_string()), filter_exact: false });
    adjust_for_test_name(&mut opts, "krate::m::data::");
    assert_eq!(opts, TestOpts { filter: Some("m::data::".to_string()), filter_exact: false });
}

#[test]
fn other_filters_are_left_alone() {
    for (filter, exact) in
        vec![(Some("m::data"), false), (Some("m"), true), (Some("krate::m::data"), true), (None, true)]
    {
        let filter = filter.map(|f: &str| f.to_string());
        let mut opts = TestOpts { filter: filter.clone(), filter_exact: exact };
        adjust_for_test_name(&mut opts, "krate::m::data");
        assert_eq!(opts, TestOpts { filter, filter_exact: exact });
    }
}

#[test]
fn asking_for_a_parent_gives_its_children() {
    let data = data_desc();
    let files = files_desc("data", IN_OUT, 0);
    for (descriptor, name) in
        vec![(data.as_datatest_desc(), "m::data"), (files.as_datatest_desc(), "files")]
    {
        let mut opts = TestOpts { filter: Some(name.to_string()), filter_exact: true };
        let mut rendered = Vec::new();
        render_test_descriptor(descriptor, &mut opts, &walk, &mut rendered).unwrap();
        assert!(!opts.filter_exact);
        let filter = opts.filter.unwrap();
        assert_eq!(rendered.len(), 2);
        assert!(rendered.iter().all(|test| name_of(test).starts_with(&filter)));
    }
}

#[test]
fn registered_tests_come_after_the_others_last_one_first() {
    let regular = regular_desc();
    let data = data_desc();
    let files = files_desc("data", IN_OUT, 0);
    let test = static_test("builtin", 1);
    let mut first = RegistrationNode { descriptor: &regular, next: None };
    let mut second = RegistrationNode { descriptor: &data, next: None };
    let mut registry: Registry<Numbers> = Registry::new();
    register(&mut registry, &mut first);
    register(&mut registry, &mut second);
    let mut opts = TestOpts { filter: Some("m::data".to_string()), filter_exact: true };
    let tests: [&dyn TestDescriptor<Numbers>; 2] = [&files, &test];
    let rendered = runner(&tests, &mut registry, &mut opts, &walk).unwrap();
    assert_eq!(
        names_of(&rendered),
        vec![
            "files::one.txt",
            "files::sub/three.txt",
            "builtin",
            "m::data::first (cases.yaml, line 3)",
            "m::data::cases.yaml, line 5",
            "regular",
        ]
    );
    assert_eq!(opts, TestOpts { filter: Some("m::data::".to_string()), filter_exact: false });
}

#[test]
fn each_node_links_to_the_one_registered_before() {
    let (one, two, three) = (static_test("one", 1), static_test("two", 2), static_test("three", 3));
    let mut a = RegistrationNode { descriptor: &one, next: None };
    let mut b = RegistrationNode { descriptor: &two, next: None };
    let mut c = RegistrationNode { descriptor: &three, next: None };
    let mut registry: Registry<Numbers> = Registry::new();
    register(&mut registry, &mut a);
    register(&mut registry, &mut b);
    register(&mut registry, &mut c);
    let mut names = Vec::new();
    let mut current = registry.head;
    while let Some(node) = current {
        match node.descriptor.as_datatest_desc() {
            DatatestTestDesc::Test(test) => names.push(name_of(test)),
            _ => panic!("another descriptor"),
        }
        current = node.next;
    }
    assert_eq!(names, vec!["three", "two", "one"]);
}

#[test]
fn registry_is_only_read_by_a_run() {
    let data = data_desc();
    let mut node = RegistrationNode { descriptor: &data, next: None };
    let mut registry: Registry<Numbers> = Registry::new();
    register(&mut registry, &mut node);
    let first = runner(&[], &mut registry, &mut no_opts(), &walk).unwrap();
    let second = runner(&[], &mut registry, &mut no_opts(), &walk).unwrap();
    assert_eq!(names_of(&first), names_of(&second));
    assert_eq!(first.len(), 2);
}

#[test]
fn looking_lists_and_marks_the_registry() {
    let (regular, data) = (regular_desc(), data_desc());
    let mut first = RegistrationNode { descriptor: &regular, next: None };
    let mut second = RegistrationNode { descriptor: &data, next: None };
    let mut registry: Registry<Numbers> = Registry::new();
    register(&mut registry, &mut first);
    register(&mut registry, &mut second);
    assert!(!registry.used);
    let listed = registry.look();
    assert!(registry.used);
    assert_eq!(listed.len(), 2);
    assert!(matches!(listed[0], DatatestTestDesc::DataTest(_)));
    assert!(matches!(listed[1], DatatestTestDesc::RegularTest(_)));
}

#[test]
fn descriptors_before_a_refused_one_are_rendered() {
    let bad = files_desc("nowhere", &["x"], 0);
    let regular = regular_desc();
    let tests: [&dyn TestDescriptor<Numbers>; 3] = [&regular, &bad, &regular];
    let mut rendered = vec![static_test("first", 1)];
    let result = render_all(list_descriptors(&tests), &mut no_opts(), &walk, &mut rendered);
    assert!(matches!(result, Err(RenderError::NoTestCases { .. })));
    assert_eq!(names_of(&rendered), vec!["first", "regular"]);
}

#[test]
fn file_without_a_unicode_name_is_tested() {
    fn odd(_root: &'static str) -> Vec<WalkEntry<String>> {
        vec![walked("data", "\u{fffd}.txt"), walked("data", ".\u{fffd}.txt")]
    }
    let desc = files_desc("data", IN_OUT, 0);
    let mut rendered = Vec::new();
    render_files_test(&desc, &odd, &mut rendered).unwrap();
    assert_eq!(names_of(&rendered), vec!["files::\u{fffd}.txt"]);
}

#[test]
fn registering_replaces_the_link() {
    let regular = regular_desc();
    let data = data_desc();
    let stray = RegistrationNode { descriptor: &data, next: None };
    let mut node = RegistrationNode { descriptor: &regular, next: Some(&stray) };
    let mut registry: Registry<Numbers> = Registry::new();
    register(&mut registry, &mut node);
    let rendered = runner(&[], &mut registry, &mut no_opts(), &walk).unwrap();
    assert_eq!(names_of(&rendered), vec!["regular"]);
}

#[test]
fn runner_must_have_looked_at_the_registry() {
    let mut registry: Registry<Numbers> = Registry::new();
    assert_eq!(check_test_runner(&registry), Err("test runner was not configured!"));
    assert!(runner(&[], &mut registry, &mut no_opts(), &walk).unwrap().is_empty());
    assert_eq!(check_test_runner(&registry), Ok(()));
}

#[test]
fn single_tests_run_one_to_one() {
    let regular = regular_desc();
    let test = static_test("builtin", 1);
    let mut registry: Registry<Numbers> = Registry::new();
    let tests: [&dyn TestDescriptor<Numbers>; 3] = [&regular, &test, &regular];
    let rendered = runner(&tests, &mut registry, &mut no_opts(), &walk).unwrap();
    assert_eq!(names_of(&rendered), vec!["regular", "builtin", "regular"]);
}

#[test]
fn files_in_different_places_get_different_names() {
    let desc = files_desc("data", &["one"], 0);
    let mut rendered = Vec::new();
    render_files_test(&desc, &walk, &mut rendered).unwrap();
    assert_eq!(names_of(&rendered), vec!["files::one.txt", "files::one.out"]);
}

#[test]
fn refused_test_ends_the_run() {
    let bad = files_desc("nowhere", &["x"], 0);
    let regular = regular_desc();
    let mut registry: Registry<Numbers> = Registry::new();
    let tests: [&dyn TestDescriptor<Numbers>; 2] = [&regular, &bad];
    assert!(matches!(
        runner(&tests, &mut registry, &mut no_opts(), &walk),
        Err(RenderError::NoTestCases { .. })
    ));
    assert!(check_test_runner(&registry).is_err());
}

#[test]
fn registry_counts_as_used_when_a_registered_test_is_refused() {
    let bad = files_desc("nowhere", &["x"], 0);
    let mut node = RegistrationNode { descriptor: &bad, next: None };
    let mut registry: Registry<Numbers> = Registry::new();
    register(&mut registry, &mut node);
    assert!(runner(&[], &mut registry, &mut no_opts(), &walk).is_err());
    assert_eq!(check_test_runner(&registry), Ok(()));
}

#[test]
fn outcome_of_a_run() {
    assert_eq!(conclude::<u32>(Ok(true)), Ok(()));
    assert_eq!(conclude::<u32>(Ok(false)), Err(RunError::TestsFailed));
    assert_eq!(conclude::<u32>(Err(7)), Err(RunError::Io(7)));
}
