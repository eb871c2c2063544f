//! What holds of the library as a whole.
use vstd::prelude::*;

use crate::descriptor::DataTestDesc;
use crate::descriptor::DatatestTestDesc;
use crate::descriptor::FilesTestDesc;
use crate::descriptor::RegularShouldPanic;
use crate::error::RenderError;
use crate::error::RenderErrorView;
use crate::files::is_visible_file;
use crate::files::visible_files;
use crate::files::FoundFile;
use crate::files::WalkEntry;
use crate::harness::DataTestCaseDesc;
use crate::harness::DataTestFn;
use crate::harness::Harness;
use crate::harness::ShouldPanic;
use crate::harness::TestDescAndFn;
use crate::names::child_name;
use crate::names::first_separator_at;
use crate::names::lemma_real_name_at;
use crate::names::path_below;
use crate::names::real_name_of;
use crate::names::separator_at;
use crate::pattern::regex_compiled;
use crate::registry::chain;
use crate::registry::linked;
use crate::registry::RegistrationNode;
use crate::runner::adjusting_all;
use crate::runner::refused_at;
use crate::runner::rendering_all;
use crate::runner::TestOptsView;

verus! {

/// Stripping takes the crate off a path, and nothing else. (What stands for the crate must not
/// itself hold a separator, nor end in half of one.)
pub proof fn law_crate_name_is_stripped(krate: Seq<char>, rest: Seq<char>)
    requires
        forall|i: int| !separator_at(krate, i),
        krate.len() > 0 ==> krate.last() != ':',
    ensures
        real_name_of(krate + "::"@ + rest) == rest,
{
    reveal_strlit("::");
    let name = krate + "::"@ + rest;
    let at = krate.len() as int;
    assert(separator_at(name, at));
    assert forall|j: int| 0 <= j < at implies !separator_at(name, j) by {
        assert(name[j] == krate[j]);
        if j + 1 < at {
            assert(name[j + 1] == krate[j + 1]);
            assert(!separator_at(krate, j));
        }
    }
    assert(first_separator_at(name, at));
    lemma_real_name_at(name, at);
    assert(name.skip(at + 2) == rest);
}

/// A name without a separator is left as it is.
pub proof fn law_name_without_crate_is_kept(name: Seq<char>)
    requires
        forall|i: int| !separator_at(name, i),
    ensures
        real_name_of(name) == name,
{
}

/// Stripping only ever takes something off the front of a name.
pub proof fn law_stripped_name_is_a_suffix(name: Seq<char>)
    ensures
        real_name_of(name).is_suffix_of(name),
{
    if exists|i: int| first_separator_at(name, i) {
        let i = choose|i: int| first_separator_at(name, i);
        lemma_real_name_at(name, i);
    }
}

/// Two children of one parent have the same name only if they are called the same.
pub proof fn law_children_keep_apart(parent: Seq<char>, one: Seq<char>, other: Seq<char>)
    requires
        child_name(parent, one) == child_name(parent, other),
    ensures
        one == other,
{
    let prefix = real_name_of(parent) + "::"@;
    assert(child_name(parent, one).skip(prefix.len() as int) == one);
    assert(child_name(parent, other).skip(prefix.len() as int) == other);
}

/// Two tests that a descriptor gives on different files have different names, as long as the paths
/// of the files below the root are different texts.
pub proof fn law_files_keep_apart<H: Harness>(
    desc: &FilesTestDesc<H>,
    files: Seq<FoundFile<H::Path>>,
    tests: Seq<TestDescAndFn<H>>,
    i: int,
    j: int,
)
    requires
        desc.are_cases(files, tests),
        0 <= i < files.len(),
        0 <= j < files.len(),
        desc.below_root(files[i]) != desc.below_root(files[j]),
    ensures
        tests[i].desc.name@ != tests[j].desc.name@,
{
    if tests[i].desc.name@ == tests[j].desc.name@ {
        law_children_keep_apart(
            desc.name@,
            desc.below_root(files[i])->0,
            desc.below_root(files[j])->0,
        );
    }
}

/// Rendering never touches the tests rendered before: it adds to them, or leaves them alone when
/// the descriptor is refused.
pub proof fn law_rendering_only_adds<'a, H: Harness, W: Fn(&'static str) -> Vec<WalkEntry<H::Path>>>(
    desc: DatatestTestDesc<'a, H>,
    walk: W,
    before: Seq<TestDescAndFn<H>>,
    after: Seq<TestDescAndFn<H>>,
    result: Result<(), RenderError>,
)
    requires
        desc.rendering(walk, before, after, result),
    ensures
        before.is_prefix_of(after),
        result is Err ==> after == before,
{
    match desc {
        DatatestTestDesc::RegularTest(regular) => {
            assert(before == after.drop_last());
        },
        _ => {},
    }
}

/// The tests of a run stand in the order of their descriptors: what the first descriptors gave
/// comes first.
pub proof fn law_tests_stand_in_order<'a, H: Harness, W: Fn(&'static str) -> Vec<WalkEntry<H::Path>>>(
    inputs: Seq<DatatestTestDesc<'a, H>>,
    walk: W,
    before: Seq<TestDescAndFn<H>>,
    after: Seq<TestDescAndFn<H>>,
    n: int,
)
    requires
        rendering_all(inputs, walk, before, after),
        0 <= n <= inputs.len(),
    ensures
        exists|between: Seq<TestDescAndFn<H>>| #[trigger]
            rendering_all(inputs.take(n), walk, before, between) && between.is_prefix_of(after),
    decreases inputs.len(),
{
    if n == inputs.len() {
        assert(inputs.take(n) == inputs);
        assert(rendering_all(inputs.take(n), walk, before, after));
    } else {
        let late = choose|late: Seq<TestDescAndFn<H>>|
            rendering_all(inputs.drop_last(), walk, before, late)
                && #[trigger] inputs.last().rendering(walk, late, after, Ok(()));
        law_tests_stand_in_order(inputs.drop_last(), walk, before, late, n);
        assert(inputs.drop_last().take(n) == inputs.take(n));
        let between = choose|between: Seq<TestDescAndFn<H>>| #[trigger]
            rendering_all(inputs.take(n), walk, before, between) && between.is_prefix_of(late);
        law_rendering_only_adds(inputs.last(), walk, late, after, Ok(()));
        assert(between.is_prefix_of(after));
    }
}

/// Every descriptor of a run is rendered, on top of what those before it gave.
pub proof fn law_every_descriptor_is_rendered<
    'a,
    H: Harness,
    W: Fn(&'static str) -> Vec<WalkEntry<H::Path>>,
>(
    inputs: Seq<DatatestTestDesc<'a, H>>,
    walk: W,
    before: Seq<TestDescAndFn<H>>,
    after: Seq<TestDescAndFn<H>>,
    n: int,
)
    requires
        rendering_all(inputs, walk, before, after),
        0 <= n < inputs.len(),
    ensures
        exists|early: Seq<TestDescAndFn<H>>, late: Seq<TestDescAndFn<H>>|
            {
                &&& rendering_all(inputs.take(n), walk, before, early)
                &&& #[trigger] inputs[n].rendering(walk, early, late, Ok(()))
                &&& late.is_prefix_of(after)
            },
{
    law_tests_stand_in_order(inputs, walk, before, after, n + 1);
    let head = inputs.take(n + 1);
    let late = choose|late: Seq<TestDescAndFn<H>>| #[trigger]
        rendering_all(head, walk, before, late) && late.is_prefix_of(after);
    assert(head.drop_last() == inputs.take(n));
    assert(head.last() == inputs[n]);
    let early = choose|early: Seq<TestDescAndFn<H>>|
        rendering_all(head.drop_last(), walk, before, early)
            && #[trigger] head.last().rendering(walk, early, late, Ok(()));
    assert(inputs[n].rendering(walk, early, late, Ok(())));
}

/// The descriptor stands for one test, which is rendered whatever files there are.
pub open spec fn is_single<'a, H: Harness>(desc: DatatestTestDesc<'a, H>) -> bool {
    match desc {
        DatatestTestDesc::Test(test) => test.testfn.is_static(),
        DatatestTestDesc::RegularTest(_) => true,
        _ => false,
    }
}

/// A run on single tests alone is never refused, and gives one test for each of them.
pub proof fn law_single_tests_run_one_to_one<
    'a,
    H: Harness,
    W: Fn(&'static str) -> Vec<WalkEntry<H::Path>>,
>(inputs: Seq<DatatestTestDesc<'a, H>>, walk: W, before: Seq<TestDescAndFn<H>>)
    requires
        forall|i: int| 0 <= i < inputs.len() ==> is_single(#[trigger] inputs[i]),
    ensures
        forall|n: int, after: Seq<TestDescAndFn<H>>, error: RenderError|
            !refused_at(inputs, walk, n, before, after, error),
        forall|after: Seq<TestDescAndFn<H>>| #[trigger]
            rendering_all(inputs, walk, before, after) ==> after.len() == before.len()
                + inputs.len(),
    decreases inputs.len(),
{
    assert forall|n: int, after: Seq<TestDescAndFn<H>>, error: RenderError|
        !refused_at(inputs, walk, n, before, after, error) by {
        if refused_at(inputs, walk, n, before, after, error) {
            assert(is_single(inputs[n]));
        }
    }
    if inputs.len() > 0 {
        let head = inputs.drop_last();
        assert forall|i: int| 0 <= i < head.len() implies is_single(#[trigger] head[i]) by {
            assert(head[i] == inputs[i]);
        }
        law_single_tests_run_one_to_one(head, walk, before);
        assert forall|after: Seq<TestDescAndFn<H>>| #[trigger]
            rendering_all(inputs, walk, before, after) implies after.len() == before.len()
            + inputs.len() by {
            let between = choose|between: Seq<TestDescAndFn<H>>|
                rendering_all(inputs.drop_last(), walk, before, between)
                    && #[trigger] inputs.last().rendering(walk, between, after, Ok(()));
            assert(rendering_all(head, walk, before, between));
            assert(is_single(inputs[inputs.len() - 1]));
        }
    }
}

/// A regular test, or one that the compiler hands over, gives exactly one test.
pub proof fn law_regular_tests_map_one_to_one<
    'a,
    H: Harness,
    W: Fn(&'static str) -> Vec<WalkEntry<H::Path>>,
>(
    desc: DatatestTestDesc<'a, H>,
    walk: W,
    before: Seq<TestDescAndFn<H>>,
    after: Seq<TestDescAndFn<H>>,
)
    requires
        desc is Test || desc is RegularTest,
        desc.rendering(walk, before, after, Ok(())),
    ensures
        after.len() == before.len() + 1,
{
}

/// A data test gives as many tests as it describes cases.
pub proof fn law_data_test_gives_a_test_per_case<H: Harness>(
    desc: &DataTestDesc<H>,
    before: Seq<TestDescAndFn<H>>,
    after: Seq<TestDescAndFn<H>>,
)
    requires
        desc.rendering(before, after),
    ensures
        exists|cases: Vec<DataTestCaseDesc<DataTestFn<H::DataTestFn, H::DataBenchFn>>>| #[trigger]
            desc.describes(cases) && after.len() == before.len() + cases@.len(),
{
    let cases = choose|
        cases: Vec<DataTestCaseDesc<DataTestFn<H::DataTestFn, H::DataBenchFn>>>,
    | #[trigger]
        desc.describes(cases) && before.is_prefix_of(after) && desc.are_cases(
            cases@,
            after.skip(before.len() as int),
        );
    assert(desc.describes(cases));
}

/// A test on files gives as many tests as the walk finds files for it, and never none: a typo in
/// the pattern does not go unnoticed.
pub proof fn law_files_test_is_never_silent<
    H: Harness,
    W: Fn(&'static str) -> Vec<WalkEntry<H::Path>>,
>(
    desc: &FilesTestDesc<H>,
    walk: W,
    before: Seq<TestDescAndFn<H>>,
    after: Seq<TestDescAndFn<H>>,
)
    requires
        desc.rendering(walk, before, after, Ok(())),
    ensures
        after.len() > before.len(),
        exists|entries: Vec<WalkEntry<H::Path>>| #[trigger]
            call_ensures(walk, (desc.root,), entries) && after.len() == before.len()
                + desc.matching_files(entries@).len(),
{
    let entries = choose|entries: Vec<WalkEntry<H::Path>>| #[trigger]
        call_ensures(walk, (desc.root,), entries) && desc.rendering_of(
            desc.matching_files(entries@),
            before,
            after,
            Ok(()),
        );
    assert(call_ensures(walk, (desc.root,), entries));
}

/// A pattern that is no regular expression is refused, whatever files there are.
pub proof fn law_invalid_pattern_is_refused<
    H: Harness,
    W: Fn(&'static str) -> Vec<WalkEntry<H::Path>>,
>(
    desc: &FilesTestDesc<H>,
    walk: W,
    before: Seq<TestDescAndFn<H>>,
    after: Seq<TestDescAndFn<H>>,
    result: Result<(), RenderError>,
)
    requires
        desc.rendering(walk, before, after, result),
    ensures
        regex_compiled(desc.pattern_text()) is None <==> (result matches Err(error)
            && error@ is InvalidPattern),
{
}

/// The files that a test is run on are just the visible files of the walk whose path matches.
pub proof fn law_tests_run_on_visible_matching_files<H: Harness>(
    desc: &FilesTestDesc<H>,
    entries: Seq<WalkEntry<H::Path>>,
    file: FoundFile<H::Path>,
)
    ensures
        desc.matching_files(entries).contains(file) <==> desc.matches(file) && exists|i: int|
            #![trigger entries[i]]
            0 <= i < entries.len() && is_visible_file(entries[i]) && file == (FoundFile {
                path: entries[i].path,
                text: entries[i].text,
            }),
{
    let visible = |entry: WalkEntry<H::Path>| is_visible_file(entry);
    let found = |entry: WalkEntry<H::Path>| FoundFile { path: entry.path, text: entry.text };
    let matches = |file: FoundFile<H::Path>| desc.matches(file);
    let seen = entries.filter(visible);
    let files = visible_files(entries);
    assert(files == seen.map_values(found));
    assert(desc.matching_files(entries) == files.filter(matches));
    if desc.matching_files(entries).contains(file) {
        let k = choose|k: int| 0 <= k < files.filter(matches).len() && files.filter(matches)[k] == file;
        files.lemma_filter_pred(matches, k);
        assert(files.contains(file)) by {
            files.lemma_filter_contains_rev(matches, file);
        }
        let j = choose|j: int| 0 <= j < files.len() && files[j] == file;
        assert(seen.contains(seen[j]));
        entries.lemma_filter_contains_rev(visible, seen[j]);
        let i = choose|i: int| 0 <= i < entries.len() && entries[i] == seen[j];
        entries.lemma_filter_pred(visible, j);
        assert(is_visible_file(entries[i]));
    }
    if desc.matches(file) && exists|i: int|
        #![trigger entries[i]]
        0 <= i < entries.len() && is_visible_file(entries[i]) && file == (FoundFile {
            path: entries[i].path,
            text: entries[i].text,
        }) {
        let i = choose|i: int|
            #![trigger entries[i]]
            0 <= i < entries.len() && is_visible_file(entries[i]) && file == (FoundFile {
                path: entries[i].path,
                text: entries[i].text,
            });
        assert(visible(entries[i]));
        entries.lemma_filter_contains(visible, i);
        let j = choose|j: int| 0 <= j < seen.len() && seen[j] == entries[i];
        assert(files[j] == file);
        assert(matches(files[j]));
        files.lemma_filter_contains(matches, j);
    }
}

/// Every entry of a walk is below `root`.
pub open spec fn all_below<P>(entries: Seq<WalkEntry<P>>, root: Seq<char>) -> bool {
    forall|i: int|
        #![trigger entries[i]]
        0 <= i < entries.len() ==> path_below(entries[i].text@, root) is Some
}

/// A walk that stays below its root lists only files below the root, so that each of them can be
/// named, whatever the test is called.
pub proof fn law_walk_below_root_lists_files_below_root<P>(
    entries: Seq<WalkEntry<P>>,
    root: Seq<char>,
    k: int,
)
    requires
        all_below(entries, root),
        0 <= k < visible_files(entries).len(),
    ensures
        path_below(visible_files(entries)[k].text@, root) is Some,
{
    let visible = |entry: WalkEntry<P>| is_visible_file(entry);
    let seen = entries.filter(visible);
    assert(seen.contains(seen[k]));
    entries.lemma_filter_contains_rev(visible, seen[k]);
    let i = choose|i: int| 0 <= i < entries.len() && entries[i] == seen[k];
    assert(path_below(entries[i].text@, root) is Some);
}

/// If walks through the root stay below it, no file is ever reported to be outside: the test is
/// rendered if some file matches, and refused only for its pattern.
pub proof fn law_walk_below_root_is_never_outside<
    H: Harness,
    W: Fn(&'static str) -> Vec<WalkEntry<H::Path>>,
>(
    desc: &FilesTestDesc<H>,
    walk: W,
    before: Seq<TestDescAndFn<H>>,
    after: Seq<TestDescAndFn<H>>,
    result: Result<(), RenderError>,
)
    requires
        desc.rendering(walk, before, after, result),
        forall|entries: Vec<WalkEntry<H::Path>>| #[trigger]
            call_ensures(walk, (desc.root,), entries) ==> all_below(entries@, desc.root@),
    ensures
        result matches Err(error) ==> error@ is InvalidPattern || error@ is NoTestCases,
{
    if let Err(error) = result {
        if regex_compiled(desc.pattern_text()) is Some {
            let entries = choose|entries: Vec<WalkEntry<H::Path>>| #[trigger]
                call_ensures(walk, (desc.root,), entries) && desc.rendering_of(
                    desc.matching_files(entries@),
                    before,
                    after,
                    result,
                );
            let files = desc.matching_files(entries@);
            if files.len() > 0 {
                let k = choose|k: int|
                    #![trigger files[k]]
                    0 <= k < files.len() && desc.below_root(files[k]) is None;
                assert(files.contains(files[k]));
                law_tests_run_on_visible_matching_files(desc, entries@, files[k]);
                let i = choose|i: int|
                    #![trigger entries@[i]]
                    0 <= i < entries@.len() && is_visible_file(entries@[i]) && files[k] == (
                    FoundFile { path: entries@[i].path, text: entries@[i].text });
                assert(path_below(entries@[i].text@, desc.root@) is Some);
            }
        }
    }
}

/// A descriptor that is ignored gives only ignored tests.
pub proof fn law_ignored_descriptor_gives_ignored_tests<H: Harness>(
    files_desc: &FilesTestDesc<H>,
    files: Seq<FoundFile<H::Path>>,
    file_tests: Seq<TestDescAndFn<H>>,
    data_desc: &DataTestDesc<H>,
    cases: Seq<DataTestCaseDesc<DataTestFn<H::DataTestFn, H::DataBenchFn>>>,
    data_tests: Seq<TestDescAndFn<H>>,
    k: int,
)
    requires
        files_desc.are_cases(files, file_tests),
        data_desc.are_cases(cases, data_tests),
    ensures
        files_desc.ignore && 0 <= k < file_tests.len() ==> file_tests[k].desc.ignore,
        data_desc.ignore && 0 <= k < data_tests.len() ==> data_tests[k].desc.ignore,
{
}

/// The name of the parent that a descriptor stands for, if it is one.
pub open spec fn parent_name<'a, H: Harness>(desc: DatatestTestDesc<'a, H>) -> Option<Seq<char>> {
    match desc {
        DatatestTestDesc::FilesTest(files) => Some(files.name@),
        DatatestTestDesc::DataTest(data) => Some(data.name@),
        _ => None,
    }
}

/// Whoever asks for just a parent test gets all its children: the adjusted filter is no longer
/// exact, and every test that the parent gives has a name that starts with it.
pub proof fn law_asking_for_a_parent_gives_its_children<
    'a,
    H: Harness,
    W: Fn(&'static str) -> Vec<WalkEntry<H::Path>>,
>(
    desc: DatatestTestDesc<'a, H>,
    walk: W,
    before: Seq<TestDescAndFn<H>>,
    after: Seq<TestDescAndFn<H>>,
    opts: TestOptsView,
    k: int,
)
    requires
        desc.rendering(walk, before, after, Ok(())),
        parent_name(desc) matches Some(name) && opts.asks_for(name),
        before.len() <= k < after.len(),
    ensures
        !desc.adjusting(opts).filter_exact,
        desc.adjusting(opts).filter matches Some(filter) && filter.is_prefix_of(
            after[k].desc.name@,
        ),
{
    let added = after.skip(before.len() as int);
    assert(added[k - before.len()] == after[k]);
    match desc {
        DatatestTestDesc::FilesTest(files) => {
            let entries = choose|entries: Vec<WalkEntry<H::Path>>| #[trigger]
                call_ensures(walk, (files.root,), entries) && files.rendering_of(
                    files.matching_files(entries@),
                    before,
                    after,
                    Ok(()),
                );
            assert(files.are_cases(files.matching_files(entries@), added));
        },
        DatatestTestDesc::DataTest(data) => {
            let cases = choose|
                cases: Vec<DataTestCaseDesc<DataTestFn<H::DataTestFn, H::DataBenchFn>>>,
            | #[trigger]
                data.describes(cases) && before.is_prefix_of(after) && data.are_cases(cases@, added);
            assert(data.are_cases(cases@, added));
        },
        _ => {},
    }
}

/// The options are adjusted once at most: after that, no parent is asked for by its name.
pub proof fn law_options_are_adjusted_once(opts: TestOptsView, name: Seq<char>, other: Seq<char>)
    requires
        opts.asks_for(name),
    ensures
        opts.adjusted(name).adjusted(other) == opts.adjusted(name),
{
}

/// A run leaves the options as they were, or adjusts them for one of its parent tests, namely one
/// that they ask for.
pub proof fn law_run_adjusts_for_one_parent<'a, H: Harness>(
    inputs: Seq<DatatestTestDesc<'a, H>>,
    opts: TestOptsView,
)
    ensures
        if exists|i: int|
            #![trigger inputs[i]]
            0 <= i < inputs.len() && (parent_name(inputs[i]) matches Some(name) && opts.asks_for(
                name,
            )) {
            adjusting_all(inputs, opts) == (TestOptsView {
                filter: Some(opts.filter->0 + "::"@),
                filter_exact: false,
            })
        } else {
            adjusting_all(inputs, opts) == opts
        },
    decreases inputs.len(),
{
    if inputs.len() > 0 {
        let head = inputs.drop_last();
        law_run_adjusts_for_one_parent(head, opts);
        if exists|i: int|
            #![trigger head[i]]
            0 <= i < head.len() && (parent_name(head[i]) matches Some(name) && opts.asks_for(name)) {
            let i = choose|i: int|
                #![trigger head[i]]
                0 <= i < head.len() && (parent_name(head[i]) matches Some(name) && opts.asks_for(
                    name,
                ));
            assert(inputs[i] == head[i]);
        } else {
            assert forall|i: int|
                #![trigger inputs[i]]
                0 <= i < head.len() implies !(parent_name(inputs[i]) matches Some(name)
                && opts.asks_for(name)) by {
                assert(inputs[i] == head[i]);
            }
            assert(inputs.last() == inputs[inputs.len() - 1]);
        }
    }
}

/// A run is refused only for a test on files, or for a test that holds no static function.
pub proof fn law_only_files_and_dynamic_tests_are_refused<
    'a,
    H: Harness,
    W: Fn(&'static str) -> Vec<WalkEntry<H::Path>>,
>(
    inputs: Seq<DatatestTestDesc<'a, H>>,
    walk: W,
    n: int,
    before: Seq<TestDescAndFn<H>>,
    after: Seq<TestDescAndFn<H>>,
    error: RenderError,
)
    requires
        refused_at(inputs, walk, n, before, after, error),
    ensures
        match inputs[n] {
            DatatestTestDesc::Test(test) => !test.testfn.is_static() && error@
                == RenderErrorView::NotStatic,
            DatatestTestDesc::FilesTest(_) => error@ != RenderErrorView::NotStatic,
            _ => false,
        },
{
}

/// Nothing is lost when the expectation of a regular test is handed to the harness.
pub proof fn law_should_panic_is_kept(one: RegularShouldPanic, other: RegularShouldPanic)
    requires
        <ShouldPanic as vstd::std_specs::convert::FromSpec<_>>::from_spec(one)
            == <ShouldPanic as vstd::std_specs::convert::FromSpec<_>>::from_spec(other),
    ensures
        one == other,
{
}

/// The head of the registry after `nodes` have been registered one after the other, when it was
/// `head` before.
pub open spec fn head_after<'a, H: Harness>(
    head: Option<&'a RegistrationNode<'a, H>>,
    nodes: Seq<RegistrationNode<'a, H>>,
) -> Option<&'a RegistrationNode<'a, H>>
    decreases nodes.len(),
{
    if nodes.len() == 0 {
        head
    } else {
        Some(&linked(nodes.last(), head_after(head, nodes.drop_last())))
    }
}

/// What is reached from `head` by following `k` links.
pub open spec fn link<'a, H: Harness>(
    head: Option<&'a RegistrationNode<'a, H>>,
    k: nat,
) -> Option<&'a RegistrationNode<'a, H>>
    decreases k,
{
    if k == 0 {
        head
    } else {
        match head {
            Some(node) => link(node.next, (k - 1) as nat),
            None => None,
        }
    }
}

/// Registration loses nothing: from the head, each node links to the one registered before it, and
/// the first of them to what was the head; the last one registered comes first.
pub proof fn law_registered_nodes_are_linked<'a, H: Harness>(
    head: Option<&'a RegistrationNode<'a, H>>,
    nodes: Seq<RegistrationNode<'a, H>>,
    k: nat,
)
    requires
        k <= nodes.len(),
    ensures
        link(head_after(head, nodes), k) == head_after(head, nodes.take(nodes.len() - k)),
        chain(head_after(head, nodes)) == nodes.map_values(
            |node: RegistrationNode<'a, H>| node.descriptor.datatest_desc(),
        ).reverse() + chain(head),
    decreases nodes.len(),
{
    let desc = |node: RegistrationNode<'a, H>| node.descriptor.datatest_desc();
    if nodes.len() == 0 {
        assert(nodes.take(0) == nodes);
        assert(nodes.map_values(desc).reverse() + chain(head) == chain(head));
    } else {
        let rest = nodes.drop_last();
        law_registered_nodes_are_linked(head, rest, if k == 0 { 0 } else { (k - 1) as nat });
        assert(nodes.take(nodes.len() as int) == nodes);
        if k > 0 {
            assert(rest.take(rest.len() - (k - 1)) == nodes.take(nodes.len() - k));
        }
        assert(nodes.map_values(desc).reverse() == seq![desc(nodes.last())] + rest.map_values(
            desc,
        ).reverse());
    }
}

} // verus!
