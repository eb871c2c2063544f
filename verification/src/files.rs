//! Tests on files: one test for each file below a directory whose path matches a pattern.
use vstd::prelude::*;

use crate::descriptor::FilesTestDesc;
use crate::descriptor::FilesTestFn;
use crate::error::RenderError;
use crate::error::RenderErrorView;
use crate::harness::DynBenchFn;
use crate::harness::DynTestFn;
use crate::harness::FilesBenchFn;
use crate::harness::Harness;
use crate::harness::ShouldPanic;
use crate::harness::TestDesc;
use crate::harness::TestDescAndFn;
use crate::harness::TestFn;
use crate::harness::TestName;
use crate::harness::TestPath;
use crate::harness::TestType;
use crate::names::child_name;
use crate::names::derive_test_name;
use crate::names::path_below;
use crate::pattern::regex_compiled;
use crate::pattern::regex_is_match;
use crate::pattern::regex_replaced;
use crate::pattern::PathPattern;

verus! {

/// What a walk through a directory reports of one entry.
pub struct WalkEntry<P> {
    /// The entry is a regular file.
    pub is_file: bool,
    /// Its name as a text, with a replacement character for what is not Unicode.
    pub file_name: String,
    pub path: P,
    /// The path as a text, with a replacement character for what is not Unicode.
    pub text: String,
}

/// A file that a test may be run on.
pub struct FoundFile<P> {
    pub path: P,
    /// The path as a text, with a replacement character for what is not Unicode.
    pub text: String,
}

/// The entry is a file, and its name does not start with a dot.
pub open spec fn is_visible_file<P>(entry: WalkEntry<P>) -> bool {
    entry.is_file && !(entry.file_name@.len() > 0 && entry.file_name@[0] == '.')
}

/// The files among the entries of a walk, without the hidden ones, in the order of the walk.
pub open spec fn visible_files<P>(entries: Seq<WalkEntry<P>>) -> Seq<FoundFile<P>> {
    entries.filter(|entry: WalkEntry<P>| is_visible_file(entry)).map_values(
        |entry: WalkEntry<P>| FoundFile { path: entry.path, text: entry.text },
    )
}

/// Filtering one more item of a sequence.
proof fn lemma_filter_next<A>(items: Seq<A>, i: int, keep: spec_fn(A) -> bool)
    requires
        0 <= i < items.len(),
    ensures
        items.take(i + 1).filter(keep) == if keep(items[i]) {
            items.take(i).filter(keep).push(items[i])
        } else {
            items.take(i).filter(keep)
        },
{
    reveal(Seq::filter);
    assert(items.take(i + 1).drop_last() == items.take(i));
}

/// Goes through the entries of a walk, skipping hidden files, and returns the files.
pub fn iterate_directory<P>(entries: Vec<WalkEntry<P>>) -> (files: Vec<FoundFile<P>>)
    ensures
        files@ == visible_files(entries@),
{
    let ghost all = entries@;
    let mut files: Vec<FoundFile<P>> = Vec::new();
    for entry in it: entries
        invariant
            it.seq() == all,
            files@ == visible_files(all.take(it.index())),
    {
        proof {
            lemma_filter_next(all, it.index(), |entry: WalkEntry<P>| is_visible_file(entry));
        }
        let name: &str = entry.file_name.as_str();
        if entry.is_file && (name.is_empty() || name.get_char(0) != '.') {
            files.push(FoundFile { path: entry.path, text: entry.text });
        }
    }
    assert(all.take(all.len() as int) == all);
    files
}

impl<H: Harness> FilesTestDesc<H> {
    /// The files that the test is run on, out of all that a walk through the root reports.
    pub open spec fn matching_files(&self, entries: Seq<WalkEntry<H::Path>>) -> Seq<
        FoundFile<H::Path>,
    > {
        visible_files(entries).filter(|file: FoundFile<H::Path>| self.matches(file))
    }

    /// The test is run on `file`.
    pub open spec fn matches(&self, file: FoundFile<H::Path>) -> bool {
        regex_is_match(self.pattern_text(), file.text@)
    }

    /// What is left of the path of `file` below the root.
    pub open spec fn below_root(&self, file: FoundFile<H::Path>) -> Option<Seq<char>> {
        path_below(file.text@, self.root@)
    }

    /// Whether the test on the file at `path` is ignored may come out as `ignore`: it always is if
    /// the descriptor says so, and else it is for the descriptor's function to tell.
    pub open spec fn may_ignore(&self, path: H::Path, ignore: bool) -> bool {
        if self.ignore {
            ignore
        } else {
            match self.ignorefn {
                Some(f) => call_ensures(f, (&path,), ignore),
                None => !ignore,
            }
        }
    }

    /// `paths` holds for each parameter the path that the test on `file` is called with: for the
    /// pattern the file itself, for any other the path that its template makes of it.
    pub open spec fn are_paths_of(
        &self,
        file: FoundFile<H::Path>,
        paths: Seq<TestPath<H::Path>>,
    ) -> bool {
        &&& paths.len() == self.params@.len()
        &&& forall|i: int|
            #![trigger paths[i]]
            0 <= i < paths.len() ==> if i == self.pattern {
                paths[i] == TestPath::<H::Path>::Found(file.path)
            } else {
                paths[i] matches TestPath::Derived(text) && text@ == regex_replaced(
                    self.pattern_text(),
                    file.text@,
                    self.params@[i]@,
                )
            }
    }

    /// `testfn` runs the function of the descriptor on `paths`.
    pub open spec fn runs_on(&self, paths: Seq<TestPath<H::Path>>, testfn: TestFn<H>) -> bool {
        match self.testfn {
            FilesTestFn::TestFn(f) => testfn matches TestFn::DynTestFn(DynTestFn::Files(g, given))
                && g == f && given@ == paths,
            FilesTestFn::BenchFn(f) => testfn matches TestFn::DynBenchFn(
                DynBenchFn::Files(FilesBenchFn(g, given)),
            ) && g == f && given@ == paths,
        }
    }

    /// `test` is the test called `name` on `paths`, with `ignore` for whether it is ignored.
    pub open spec fn is_case(
        &self,
        name: Seq<char>,
        paths: Seq<TestPath<H::Path>>,
        ignore: bool,
        test: TestDescAndFn<H>,
    ) -> bool {
        &&& test.desc.name is DynTestName
        &&& test.desc.name@ == name
        &&& test.desc.ignore == ignore
        &&& test.desc.should_panic == ShouldPanic::No
        &&& !test.desc.allow_fail
        &&& test.desc.test_type == TestType::OfSource(self.source_file)
        &&& self.runs_on(paths, test.testfn)
    }

    /// `test` is a test on `file`.
    pub open spec fn is_case_of(&self, file: FoundFile<H::Path>, test: TestDescAndFn<H>) -> bool {
        &&& self.may_ignore(file.path, test.desc.ignore)
        &&& exists|paths: Seq<TestPath<H::Path>>|
            #![trigger self.are_paths_of(file, paths)]
            {
                &&& self.are_paths_of(file, paths)
                &&& self.below_root(file) matches Some(below) && self.is_case(
                    child_name(self.name@, below),
                    paths,
                    test.desc.ignore,
                    test,
                )
            }
    }

    /// `tests` are the tests on `files`, in their order.
    pub open spec fn are_cases(
        &self,
        files: Seq<FoundFile<H::Path>>,
        tests: Seq<TestDescAndFn<H>>,
    ) -> bool {
        &&& tests.len() == files.len()
        &&& forall|k: int|
            #![trigger tests[k]]
            0 <= k < tests.len() ==> self.is_case_of(files[k], tests[k])
    }

    /// Rendering the test on `files`, which all match, turns `before` into `after` with `result`:
    /// it adds the tests on the files, unless there is no file or one is not below the root.
    pub open spec fn rendering_of(
        &self,
        files: Seq<FoundFile<H::Path>>,
        before: Seq<TestDescAndFn<H>>,
        after: Seq<TestDescAndFn<H>>,
        result: Result<(), RenderError>,
    ) -> bool {
        match result {
            Ok(_) => {
                &&& files.len() > 0
                &&& before.is_prefix_of(after)
                &&& self.are_cases(files, after.skip(before.len() as int))
            },
            Err(error) => {
                &&& after == before
                &&& if files.len() == 0 {
                    error@ == (RenderErrorView::NoTestCases {
                        test: self.name@,
                        root: self.root@,
                        pattern: self.pattern_text(),
                    })
                } else {
                    self.reports_outside(files, error@)
                }
            },
        }
    }

    /// Rendering the test turns `before` into `after` with `result`, if `walk` is what walks
    /// through the root: a pattern that is no regular expression is refused before the walk.
    pub open spec fn rendering<W: Fn(&'static str) -> Vec<WalkEntry<H::Path>>>(
        &self,
        walk: W,
        before: Seq<TestDescAndFn<H>>,
        after: Seq<TestDescAndFn<H>>,
        result: Result<(), RenderError>,
    ) -> bool {
        if regex_compiled(self.pattern_text()) is None {
            &&& after == before
            &&& result matches Err(error) && error@ == (RenderErrorView::InvalidPattern {
                pattern: self.pattern_text(),
            })
        } else {
            exists|entries: Vec<WalkEntry<H::Path>>| #[trigger]
                call_ensures(walk, (self.root,), entries) && self.rendering_of(
                    self.matching_files(entries@),
                    before,
                    after,
                    result,
                )
        }
    }

    /// `error` reports the first of `files` that is not below the root.
    pub open spec fn reports_outside(
        &self,
        files: Seq<FoundFile<H::Path>>,
        error: RenderErrorView,
    ) -> bool {
        exists|k: int|
            #![trigger files[k]]
            {
                &&& 0 <= k < files.len()
                &&& self.below_root(files[k]) is None
                &&& forall|j: int| 0 <= j < k ==> self.below_root(#[trigger] files[j]) is Some
                &&& error == (RenderErrorView::OutsideRoot {
                    root: self.root@,
                    path: files[k].text@,
                })
            }
    }
}

/// The paths that a test is called with: `found`, at position `at` among those `derived` from it.
pub fn arrange_paths<P>(found: P, at: usize, derived: Vec<String>) -> (paths: Vec<TestPath<P>>)
    requires
        at <= derived@.len(),
    ensures
        paths@ == derived@.map_values(|text: String| TestPath::<P>::Derived(text)).insert(
            at as int,
            TestPath::Found(found),
        ),
{
    let ghost all = derived@.map_values(|text: String| TestPath::<P>::Derived(text));
    let mut paths: Vec<TestPath<P>> = Vec::with_capacity(derived.len());
    for text in it: derived
        invariant
            it.seq() == derived@,
            all == derived@.map_values(|text: String| TestPath::<P>::Derived(text)),
            paths@ == all.take(it.index()),
    {
        paths.push(TestPath::Derived(text));
    }
    assert(all.take(all.len() as int) == all);
    paths.insert(at, TestPath::Found(found));
    paths
}

/// The paths that the test of `desc` is called with when it is run on `file`.
fn case_paths<H: Harness>(
    desc: &FilesTestDesc<H>,
    pattern: &PathPattern,
    file: FoundFile<H::Path>,
) -> (paths: Vec<TestPath<H::Path>>)
    requires
        desc.well_formed(),
        pattern@ == desc.pattern_text(),
    ensures
        desc.are_paths_of(file, paths@),
{
    let len: usize = desc.params.len();
    let mut derived: Vec<String> = Vec::with_capacity(len);
    for idx in 0..len
        invariant
            len == desc.params@.len(),
            desc.pattern < len,
            pattern@ == desc.pattern_text(),
            derived@.len() == if idx <= desc.pattern {
                idx as int
            } else {
                idx - 1
            },
            forall|i: int|
                #![trigger derived@[i]]
                0 <= i < derived@.len() ==> derived@[i]@ == regex_replaced(
                    desc.pattern_text(),
                    file.text@,
                    desc.params@[if i < desc.pattern {
                        i
                    } else {
                        i + 1
                    }]@,
                ),
    {
        if idx != desc.pattern {
            derived.push(pattern.replace_all(file.text.as_str(), desc.params[idx]));
        }
    }
    arrange_paths(file.path, desc.pattern, derived)
}

/// The test of `desc` called `name` on `paths`, with `ignore` for whether it is ignored.
pub fn render_case<H: Harness>(
    desc: &FilesTestDesc<H>,
    name: String,
    paths: Vec<TestPath<H::Path>>,
    ignore: bool,
) -> (test: TestDescAndFn<H>)
    ensures
        desc.is_case(name@, paths@, ignore, test),
{
    let testfn = match &desc.testfn {
        FilesTestFn::TestFn(testfn) => TestFn::DynTestFn(DynTestFn::Files(*testfn, paths)),
        FilesTestFn::BenchFn(benchfn) => TestFn::DynBenchFn(
            DynBenchFn::Files(FilesBenchFn(*benchfn, paths)),
        ),
    };
    TestDescAndFn {
        desc: TestDesc {
            name: TestName::DynTestName(name),
            ignore,
            should_panic: ShouldPanic::No,
            allow_fail: false,
            test_type: TestType::OfSource(desc.source_file),
        },
        testfn,
    }
}

/// Adds the tests that `desc` gave to those rendered before. That there are none is most likely a
/// typo in the pattern, and is refused.
pub fn add_cases<H: Harness>(
    desc: &FilesTestDesc<H>,
    cases: Vec<TestDescAndFn<H>>,
    rendered: &mut Vec<TestDescAndFn<H>>,
) -> (result: Result<(), RenderError>)
    requires
        desc.well_formed(),
    ensures
        final(rendered)@ == old(rendered)@ + cases@,
        match result {
            Ok(_) => cases@.len() > 0,
            Err(error) => cases@.len() == 0 && error@ == (RenderErrorView::NoTestCases {
                test: desc.name@,
                root: desc.root@,
                pattern: desc.pattern_text(),
            }),
        },
{
    if cases.len() == 0 {
        return Err(
            RenderError::NoTestCases {
                test: desc.name.to_string(),
                root: desc.root.to_string(),
                pattern: desc.params[desc.pattern].to_string(),
            },
        );
    }
    let mut cases = cases;
    rendered.append(&mut cases);
    Ok(())
}

/// Renders the test of `desc` on those of `files` that match its pattern.
///
/// The tests are added to `rendered` all together, or not at all.
pub fn render_matching_files<H: Harness>(
    desc: &FilesTestDesc<H>,
    pattern: &PathPattern,
    files: Vec<FoundFile<H::Path>>,
    rendered: &mut Vec<TestDescAndFn<H>>,
) -> (result: Result<(), RenderError>)
    requires
        desc.well_formed(),
        pattern@ == desc.pattern_text(),
    ensures
        desc.rendering_of(
            files@.filter(|file: FoundFile<H::Path>| desc.matches(file)),
            old(rendered)@,
            final(rendered)@,
            result,
        ),
{
    let ghost all = files@;
    let ghost matches = |file: FoundFile<H::Path>| desc.matches(file);
    let mut cases: Vec<TestDescAndFn<H>> = Vec::new();
    for file in it: files
        invariant
            it.seq() == all,
            desc.well_formed(),
            pattern@ == desc.pattern_text(),
            matches == (|file: FoundFile<H::Path>| desc.matches(file)),
            desc.are_cases(all.take(it.index()).filter(matches), cases@),
            *rendered == *old(rendered),
    {
        let ghost i = it.index();
        let ghost before = all.take(i).filter(matches);
        proof {
            lemma_filter_next(all, i, matches);
        }
        if pattern.is_match(file.text.as_str()) {
            let name = match derive_test_name(desc.root, file.text.as_str(), desc.name) {
                Ok(name) => name,
                Err(error) => {
                    proof {
                        let found = all.filter(matches);
                        assert(all == all.take(i + 1) + all.skip(i + 1));
                        Seq::filter_distributes_over_add(all.take(i + 1), all.skip(i + 1), matches);
                        assert(found[before.len() as int] == file);
                        assert forall|j: int| 0 <= j < before.len() implies desc.below_root(
                            #[trigger] found[j],
                        ) is Some by {
                            assert(found[j] == before[j]);
                            assert(desc.may_ignore(before[j].path, cases@[j].desc.ignore));
                        }
                        assert(desc.reports_outside(found, error@));
                    }
                    return Err(error);
                },
            };
            let ignore: bool = desc.ignore || match &desc.ignorefn {
                Some(ignorefn) => ignorefn(&file.path),
                None => false,
            };
            let paths = case_paths(desc, pattern, file);
            cases.push(render_case(desc, name, paths, ignore));
            assert(desc.is_case_of(file, cases@.last()));
        }
    }
    assert(all.take(all.len() as int) == all);
    add_cases(desc, cases, rendered)
}

/// Renders the test of `desc` on each file below its root that matches its pattern.
///
/// `walk` lists what is below a directory.
pub fn render_files_test<H: Harness, W: Fn(&'static str) -> Vec<WalkEntry<H::Path>>>(
    desc: &FilesTestDesc<H>,
    walk: &W,
    rendered: &mut Vec<TestDescAndFn<H>>,
) -> (result: Result<(), RenderError>)
    requires
        desc.well_formed(),
        call_requires(*walk, (desc.root,)),
    ensures
        desc.rendering(*walk, old(rendered)@, final(rendered)@, result),
{
    let source: &'static str = desc.params[desc.pattern];
    let pattern = match PathPattern::compile(source) {
        Some(pattern) => pattern,
        None => return Err(RenderError::InvalidPattern { pattern: source.to_string() }),
    };
    let entries = walk(desc.root);
    let ghost listed = entries@;
    let files = iterate_directory(entries);
    let result = render_matching_files(desc, &pattern, files, rendered);
    assert(desc.matching_files(listed) == files@.filter(
        |file: FoundFile<H::Path>| desc.matches(file),
    ));
    result
}

} // verus!
