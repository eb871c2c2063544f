//! What each operation gives, said of the fields of its inputs and results alone.
use vstd::prelude::*;

use crate::descriptor::DataTestDesc;
use crate::descriptor::DatatestTestDesc;
use crate::descriptor::FilesTestDesc;
use crate::descriptor::FilesTestFn;
use crate::descriptor::RegularShouldPanic;
use crate::descriptor::RegularTestDesc;
use crate::descriptor::TestDescriptor;
use crate::error::RenderError;
use crate::error::RenderErrorView;
use crate::files::is_visible_file;
use crate::files::visible_files;
use crate::files::FoundFile;
use crate::files::WalkEntry;
use crate::harness::DataTestCaseDesc;
use crate::harness::DataTestFn;
use crate::harness::DynBenchFn;
use crate::harness::DynTestFn;
use crate::harness::FilesBenchFn;
use crate::harness::Harness;
use crate::harness::ShouldPanic;
use crate::harness::TestDescAndFn;
use crate::harness::TestFn;
use crate::harness::TestName;
use crate::harness::TestOpts;
use crate::harness::TestPath;
use crate::harness::TestType;
use crate::names::child_name;
use crate::names::first_separator_at;
use crate::names::lemma_real_name_at;
use crate::names::path_below;
use crate::names::real_name_of;
use crate::pattern::regex_compiled;
use crate::pattern::regex_is_match;
use crate::pattern::regex_replaced;
use crate::registry::chain;
use crate::registry::linked;
use crate::registry::RegistrationNode;
use crate::registry::Registry;
use crate::runner::adjusting_all;
use crate::runner::all_well_formed;
use crate::runner::descriptors_of;
use crate::runner::refused_at;
use crate::runner::rendering_all;
use crate::runner::TestOptsView;
use crate::termination::Termination;

verus! {

/// Stripping a name cuts it behind its first two colons in a row; without such two it stays.
pub proof fn law_name_is_cut_behind_first_two_colons(name: Seq<char>, i: int)
    ensures
        0 <= i && i + 1 < name.len() && name[i] == ':' && name[i + 1] == ':' && (forall|j: int|
            0 <= j < i ==> !(#[trigger] name[j] == ':' && name[j + 1] == ':')) ==> real_name_of(name)
            == name.skip(i + 2),
        (forall|j: int|
            0 <= j && j + 1 < name.len() ==> !(#[trigger] name[j] == ':' && name[j + 1] == ':'))
            ==> real_name_of(name) == name,
{
    if 0 <= i && i + 1 < name.len() && name[i] == ':' && name[i + 1] == ':' && (forall|j: int|
        0 <= j < i ==> !(#[trigger] name[j] == ':' && name[j + 1] == ':')) {
        assert(first_separator_at(name, i));
        lemma_real_name_at(name, i);
    }
    if forall|j: int|
        0 <= j && j + 1 < name.len() ==> !(#[trigger] name[j] == ':' && name[j + 1] == ':') {
        assert forall|k: int| !first_separator_at(name, k) by {
            if 0 <= k && k + 1 < name.len() {
                assert(!(name[k] == ':' && name[k + 1] == ':'));
            }
        }
    }
}

/// A child is named after its parent, without the crate, and two colons.
pub proof fn law_child_is_named_after_parent(parent: Seq<char>, child: Seq<char>)
    ensures
        child_name(parent, child) == real_name_of(parent) + "::"@ + child,
{
}

/// Two conditions that agree on the items of a sequence keep the same of them.
proof fn lemma_filter_agree<A>(items: Seq<A>, one: spec_fn(A) -> bool, other: spec_fn(A) -> bool)
    requires
        forall|i: int| 0 <= i < items.len() ==> one(#[trigger] items[i]) == other(items[i]),
    ensures
        items.filter(one) == items.filter(other),
    decreases items.len(),
{
    reveal(Seq::filter);
    if items.len() > 0 {
        let head = items.drop_last();
        assert forall|i: int| 0 <= i < head.len() implies one(#[trigger] head[i]) == other(
            head[i],
        ) by {
            assert(head[i] == items[i]);
        }
        lemma_filter_agree(head, one, other);
        assert(items.last() == items[items.len() - 1]);
    }
}

/// Filtering, converting and filtering again is filtering once and then converting.
proof fn lemma_filter_map_filter<A, B>(
    items: Seq<A>,
    keep: spec_fn(A) -> bool,
    convert: spec_fn(A) -> B,
    keep_converted: spec_fn(B) -> bool,
    both: spec_fn(A) -> bool,
)
    requires
        forall|i: int|
            0 <= i < items.len() ==> both(#[trigger] items[i]) == (keep(items[i])
                && keep_converted(convert(items[i]))),
    ensures
        items.filter(keep).map_values(convert).filter(keep_converted) == items.filter(
            both,
        ).map_values(convert),
    decreases items.len(),
{
    reveal(Seq::filter);
    if items.len() > 0 {
        let head = items.drop_last();
        assert forall|i: int| 0 <= i < head.len() implies both(#[trigger] head[i]) == (keep(head[i])
            && keep_converted(convert(head[i]))) by {
            assert(head[i] == items[i]);
        }
        lemma_filter_map_filter(head, keep, convert, keep_converted, both);
        let last = items.last();
        assert(last == items[items.len() - 1]);
        if keep(last) {
            let kept = head.filter(keep).map_values(convert);
            assert(items.filter(keep).map_values(convert) == kept.push(convert(last)));
            assert(kept.push(convert(last)).drop_last() == kept);
            if both(last) {
                assert(items.filter(both).map_values(convert) == head.filter(both).map_values(
                    convert,
                ).push(convert(last)));
            }
        }
    } else {
        assert(items.filter(keep).map_values(convert) == Seq::<B>::empty());
        assert(items.filter(both).map_values(convert) == Seq::<B>::empty());
    }
}

/// The files of a walk are its regular files whose name does not start with a dot, in order.
pub proof fn law_files_are_regular_and_not_hidden<P>(entries: Seq<WalkEntry<P>>)
    ensures
        visible_files(entries) == entries.filter(
            |entry: WalkEntry<P>|
                entry.is_file && !(entry.file_name@.len() > 0 && entry.file_name@[0] == '.'),
        ).map_values(
            |entry: WalkEntry<P>| FoundFile { path: entry.path, text: entry.text },
        ),
{
    lemma_filter_agree(
        entries,
        |entry: WalkEntry<P>| is_visible_file(entry),
        |entry: WalkEntry<P>|
            entry.is_file && !(entry.file_name@.len() > 0 && entry.file_name@[0] == '.'),
    );
}

/// A descriptor of a test on files is in order if its pattern is one of its parameters and its
/// function for ignored files may be called on every path; the pattern's text is that parameter.
pub proof fn law_files_descriptor_in_order<H: Harness>(desc: &FilesTestDesc<H>)
    ensures
        desc.well_formed() <==> desc.pattern < desc.params@.len() && (desc.ignorefn matches Some(f)
            ==> forall|path: &H::Path| call_requires(f, (path,))),
        desc.pattern_text() == desc.params@[desc.pattern as int]@,
{
}

/// A descriptor of a data test is in order if its cases may be asked for.
pub proof fn law_data_descriptor_in_order<H: Harness>(desc: &DataTestDesc<H>)
    ensures
        desc.well_formed() <==> call_requires(desc.describefn, ()),
{
}

/// Descriptors are in order together if each of those on files and on data is; the others always
/// are.
pub proof fn law_descriptors_in_order<'a, H: Harness>(inputs: Seq<DatatestTestDesc<'a, H>>)
    ensures
        all_well_formed(inputs) <==> forall|i: int|
            0 <= i < inputs.len() ==> match #[trigger] inputs[i] {
                DatatestTestDesc::FilesTest(files) => files.well_formed(),
                DatatestTestDesc::DataTest(data) => data.well_formed(),
                _ => true,
            },
{
}

/// A case of a test on files has the name and the paths it is given, is ignored as it is told, and
/// runs the function of the descriptor.
pub proof fn law_file_case<H: Harness>(
    desc: &FilesTestDesc<H>,
    name: Seq<char>,
    paths: Seq<TestPath<H::Path>>,
    ignore: bool,
    test: TestDescAndFn<H>,
)
    requires
        desc.is_case(name, paths, ignore, test),
    ensures
        test.desc.name matches TestName::DynTestName(text) && text@ == name,
        test.desc.ignore == ignore,
        test.desc.should_panic == ShouldPanic::No,
        !test.desc.allow_fail,
        test.desc.test_type == TestType::OfSource(desc.source_file),
        match desc.testfn {
            FilesTestFn::TestFn(f) => test.testfn matches TestFn::DynTestFn(
                DynTestFn::Files(g, given),
            ) && g == f && given@ == paths,
            FilesTestFn::BenchFn(f) => test.testfn matches TestFn::DynBenchFn(
                DynBenchFn::Files(FilesBenchFn(g, given)),
            ) && g == f && given@ == paths,
        },
{
}

/// A test, or a benchmark, on files is rendered on exactly those of the given files in whose path
/// its regular expression is found, in their order. Each case is named after the parent and the
/// path below the root, is called with the file itself for the pattern and with one replacement on
/// the path of the file for every other parameter, and is ignored only as the descriptor or its
/// function says. It is refused only if there is no such file, or for the first one that is not
/// below the root; then nothing changes.
pub proof fn law_matching_files_are_rendered<H: Harness>(
    desc: &FilesTestDesc<H>,
    files: Seq<FoundFile<H::Path>>,
    before: Seq<TestDescAndFn<H>>,
    after: Seq<TestDescAndFn<H>>,
    result: Result<(), RenderError>,
)
    requires
        desc.well_formed(),
        desc.rendering_of(
            files.filter(|file: FoundFile<H::Path>| desc.matches(file)),
            before,
            after,
            result,
        ),
    ensures
        ({
            let source = desc.params@[desc.pattern as int]@;
            let picked = files.filter(
                |file: FoundFile<H::Path>| regex_is_match(source, file.text@),
            );
            let added = after.skip(before.len() as int);
            match result {
                Ok(_) => {
                    &&& picked.len() > 0
                    &&& after == before + added
                    &&& added.len() == picked.len()
                    &&& forall|k: int|
                        #![trigger added[k]]
                        #![trigger picked[k]]
                        0 <= k < picked.len() ==> {
                            &&& path_below(picked[k].text@, desc.root@) matches Some(below)
                                && added[k].desc.name matches TestName::DynTestName(name) && name@
                                == real_name_of(desc.name@) + "::"@ + below
                            &&& if desc.ignore {
                                added[k].desc.ignore
                            } else {
                                match desc.ignorefn {
                                    Some(f) => call_ensures(
                                        f,
                                        (&picked[k].path,),
                                        added[k].desc.ignore,
                                    ),
                                    None => !added[k].desc.ignore,
                                }
                            }
                            &&& added[k].desc.should_panic == ShouldPanic::No
                            &&& !added[k].desc.allow_fail
                            &&& added[k].desc.test_type == TestType::OfSource(desc.source_file)
                            &&& match desc.testfn {
                                FilesTestFn::TestFn(f) => added[k].testfn matches TestFn::DynTestFn(
                                    DynTestFn::Files(g, paths),
                                ) && g == f && paths@.len() == desc.params@.len()
                                    && paths@[desc.pattern as int] == TestPath::<H::Path>::Found(
                                    picked[k].path,
                                ) && forall|i: int|
                                    #![trigger paths@[i]]
                                    0 <= i < paths@.len() && i != desc.pattern ==> (paths@[i] matches
                                        TestPath::Derived(text) && text@ == regex_replaced(
                                        source,
                                        picked[k].text@,
                                        desc.params@[i]@,
                                    )),
                                FilesTestFn::BenchFn(f) => added[k].testfn matches TestFn::DynBenchFn(
                                    DynBenchFn::Files(FilesBenchFn(g, paths)),
                                ) && g == f && paths@.len() == desc.params@.len()
                                    && paths@[desc.pattern as int] == TestPath::<H::Path>::Found(
                                    picked[k].path,
                                ) && forall|i: int|
                                    #![trigger paths@[i]]
                                    0 <= i < paths@.len() && i != desc.pattern ==> (paths@[i] matches
                                        TestPath::Derived(text) && text@ == regex_replaced(
                                        source,
                                        picked[k].text@,
                                        desc.params@[i]@,
                                    )),
                            }
                        }
                },
                Err(error) => {
                    &&& after == before
                    &&& if picked.len() == 0 {
                        error matches RenderError::NoTestCases { test, root, pattern } && test@
                            == desc.name@ && root@ == desc.root@ && pattern@ == source
                    } else {
                        exists|k: int|
                            #![trigger picked[k]]
                            {
                                &&& 0 <= k < picked.len()
                                &&& path_below(picked[k].text@, desc.root@) is None
                                &&& forall|j: int|
                                    0 <= j < k ==> path_below(
                                        #[trigger] picked[j].text@,
                                        desc.root@,
                                    ) is Some
                                &&& error matches RenderError::OutsideRoot { root, path } && root@
                                    == desc.root@ && path@ == picked[k].text@
                            }
                    }
                },
            }
        }),
{
    let source = desc.params@[desc.pattern as int]@;
    let picked = files.filter(|file: FoundFile<H::Path>| regex_is_match(source, file.text@));
    lemma_filter_agree(
        files,
        |file: FoundFile<H::Path>| desc.matches(file),
        |file: FoundFile<H::Path>| regex_is_match(source, file.text@),
    );
    let added = after.skip(before.len() as int);
    match result {
        Ok(_) => {
            assert(after == before + added);
            assert forall|k: int| 0 <= k < picked.len() implies desc.is_case_of(
                #[trigger] picked[k],
                added[k],
            ) by {
                assert(desc.is_case_of(picked[k], added[k]));
            }
        },
        Err(error) => {
            if picked.len() > 0 {
                let k = choose|k: int|
                    #![trigger picked[k]]
                    {
                        &&& 0 <= k < picked.len()
                        &&& desc.below_root(picked[k]) is None
                        &&& forall|j: int| 0 <= j < k ==> desc.below_root(#[trigger] picked[j]) is Some
                        &&& error@ == (RenderErrorView::OutsideRoot {
                            root: desc.root@,
                            path: picked[k].text@,
                        })
                    };
                assert forall|j: int| 0 <= j < k implies path_below(
                    #[trigger] picked[j].text@,
                    desc.root@,
                ) is Some by {
                    assert(desc.below_root(picked[j]) is Some);
                }
            }
        },
    }
}

/// A test, or a benchmark, on files is rendered on exactly those entries of a walk through its root
/// that are regular files, do not have a name that starts with a dot, and in whose path its regular
/// expression is found, in the order of the walk; what else holds of the cases, and when the test is
/// refused, is as for given files. A text that is no regular expression is refused at once.
pub proof fn law_files_test_is_rendered<
    H: Harness,
    W: Fn(&'static str) -> Vec<WalkEntry<H::Path>>,
>(
    desc: &FilesTestDesc<H>,
    walk: W,
    before: Seq<TestDescAndFn<H>>,
    after: Seq<TestDescAndFn<H>>,
    result: Result<(), RenderError>,
)
    requires
        desc.well_formed(),
        desc.rendering(walk, before, after, result),
    ensures
        regex_compiled(desc.params@[desc.pattern as int]@) is None ==> {
            &&& after == before
            &&& result matches Err(RenderError::InvalidPattern { pattern }) && pattern@
                == desc.params@[desc.pattern as int]@
        },
        regex_compiled(desc.params@[desc.pattern as int]@) is Some ==> exists|
            entries: Vec<WalkEntry<H::Path>>,
        | #[trigger]
            call_ensures(walk, (desc.root,), entries) && ({
                let source = desc.params@[desc.pattern as int]@;
                let picked = entries@.filter(
                    |entry: WalkEntry<H::Path>|
                        entry.is_file && !(entry.file_name@.len() > 0 && entry.file_name@[0] == '.')
                            && regex_is_match(source, entry.text@),
                );
                let added = after.skip(before.len() as int);
                match result {
                    Ok(_) => {
                        &&& picked.len() > 0
                        &&& after == before + added
                        &&& added.len() == picked.len()
                        &&& forall|k: int|
                            #![trigger added[k]]
                            #![trigger picked[k]]
                            0 <= k < picked.len() ==> {
                                &&& path_below(picked[k].text@, desc.root@) matches Some(below)
                                    && added[k].desc.name matches TestName::DynTestName(name) && name@
                                    == real_name_of(desc.name@) + "::"@ + below
                                &&& if desc.ignore {
                                    added[k].desc.ignore
                                } else {
                                    match desc.ignorefn {
                                        Some(f) => call_ensures(
                                            f,
                                            (&picked[k].path,),
                                            added[k].desc.ignore,
                                        ),
                                        None => !added[k].desc.ignore,
                                    }
                                }
                                &&& added[k].desc.should_panic == ShouldPanic::No
                                &&& !added[k].desc.allow_fail
                                &&& added[k].desc.test_type == TestType::OfSource(desc.source_file)
                                &&& match desc.testfn {
                                    FilesTestFn::TestFn(f) => added[k].testfn matches TestFn::DynTestFn(
                                        DynTestFn::Files(g, paths),
                                    ) && g == f && paths@.len() == desc.params@.len()
                                        && paths@[desc.pattern as int] == TestPath::<H::Path>::Found(
                                        picked[k].path,
                                    ) && forall|i: int|
                                        #![trigger paths@[i]]
                                        0 <= i < paths@.len() && i != desc.pattern ==> (paths@[i] matches
                                            TestPath::Derived(text) && text@ == regex_replaced(
                                            source,
                                            picked[k].text@,
                                            desc.params@[i]@,
                                        )),
                                    FilesTestFn::BenchFn(f) => added[k].testfn matches TestFn::DynBenchFn(
                                        DynBenchFn::Files(FilesBenchFn(g, paths)),
                                    ) && g == f && paths@.len() == desc.params@.len()
                                        && paths@[desc.pattern as int] == TestPath::<H::Path>::Found(
                                        picked[k].path,
                                    ) && forall|i: int|
                                        #![trigger paths@[i]]
                                        0 <= i < paths@.len() && i != desc.pattern ==> (paths@[i] matches
                                            TestPath::Derived(text) && text@ == regex_replaced(
                                            source,
                                            picked[k].text@,
                                            desc.params@[i]@,
                                        )),
                                }
                            }
                    },
                    Err(error) => {
                        &&& after == before
                        &&& if picked.len() == 0 {
                            error matches RenderError::NoTestCases { test, root, pattern } && test@
                                == desc.name@ && root@ == desc.root@ && pattern@ == source
                        } else {
                            exists|k: int|
                                #![trigger picked[k]]
                                {
                                    &&& 0 <= k < picked.len()
                                    &&& path_below(picked[k].text@, desc.root@) is None
                                    &&& forall|j: int|
                                        0 <= j < k ==> path_below(
                                            #[trigger] picked[j].text@,
                                            desc.root@,
                                        ) is Some
                                    &&& error matches RenderError::OutsideRoot { root, path } && root@
                                        == desc.root@ && path@ == picked[k].text@
                                }
                        }
                    },
                }
            }),
{
    let source = desc.params@[desc.pattern as int]@;
    if regex_compiled(source) is Some {
        let entries = choose|entries: Vec<WalkEntry<H::Path>>| #[trigger]
            call_ensures(walk, (desc.root,), entries) && desc.rendering_of(
                desc.matching_files(entries@),
                before,
                after,
                result,
            );
        let files = visible_files(entries@);
        law_files_are_regular_and_not_hidden(entries@);
        law_matching_files_are_rendered(desc, files, before, after, result);
        let visible = |entry: WalkEntry<H::Path>|
            entry.is_file && !(entry.file_name@.len() > 0 && entry.file_name@[0] == '.');
        let found = |entry: WalkEntry<H::Path>| FoundFile { path: entry.path, text: entry.text };
        let matched = |file: FoundFile<H::Path>| regex_is_match(source, file.text@);
        let wanted = |entry: WalkEntry<H::Path>|
            entry.is_file && !(entry.file_name@.len() > 0 && entry.file_name@[0] == '.')
                && regex_is_match(source, entry.text@);
        lemma_filter_map_filter(entries@, visible, found, matched, wanted);
        let picked_files = files.filter(matched);
        let picked = entries@.filter(wanted);
        assert(picked_files == picked.map_values(found));
        assert forall|k: int| 0 <= k < picked.len() implies picked_files[k] == found(
            #[trigger] picked[k],
        ) by {}
        if result is Err && picked.len() > 0 {
            let k = choose|k: int|
                #![trigger picked_files[k]]
                {
                    &&& 0 <= k < picked_files.len()
                    &&& path_below(picked_files[k].text@, desc.root@) is None
                    &&& forall|j: int|
                        0 <= j < k ==> path_below(#[trigger] picked_files[j].text@, desc.root@) is Some
                    &&& result->Err_0 matches RenderError::OutsideRoot { root, path } && root@
                        == desc.root@ && path@ == picked_files[k].text@
                };
            assert(picked[k].text@ == picked_files[k].text@);
            assert forall|j: int| 0 <= j < k implies path_below(
                #[trigger] picked[j].text@,
                desc.root@,
            ) is Some by {
                assert(picked_files[j].text@ == picked[j].text@);
            }
        }
        assert(call_ensures(walk, (desc.root,), entries));
    }
}

/// No test is given on an entry in whose path the regular expression is not found: a test on files
/// that is rendered on a walk without such an entry is refused, for tests and benchmarks alike.
pub proof fn law_nothing_matches_nothing_runs<
    H: Harness,
    W: Fn(&'static str) -> Vec<WalkEntry<H::Path>>,
>(
    desc: &FilesTestDesc<H>,
    walk: W,
    before: Seq<TestDescAndFn<H>>,
    after: Seq<TestDescAndFn<H>>,
    result: Result<(), RenderError>,
)
    requires
        desc.well_formed(),
        desc.rendering(walk, before, after, result),
        forall|entries: Vec<WalkEntry<H::Path>>, i: int|
            #![trigger call_ensures(walk, (desc.root,), entries), entries@[i]]
            call_ensures(walk, (desc.root,), entries) && 0 <= i < entries@.len()
                ==> !regex_is_match(desc.params@[desc.pattern as int]@, entries@[i].text@),
    ensures
        result is Err,
        after == before,
{
    law_files_test_is_rendered(desc, walk, before, after, result);
    let source = desc.params@[desc.pattern as int]@;
    if result is Ok {
        let entries = choose|entries: Vec<WalkEntry<H::Path>>| #[trigger]
            call_ensures(walk, (desc.root,), entries) && entries@.filter(
                |entry: WalkEntry<H::Path>|
                    entry.is_file && !(entry.file_name@.len() > 0 && entry.file_name@[0] == '.')
                        && regex_is_match(source, entry.text@),
            ).len() > 0;
        let wanted = |entry: WalkEntry<H::Path>|
            entry.is_file && !(entry.file_name@.len() > 0 && entry.file_name@[0] == '.')
                && regex_is_match(source, entry.text@);
        let picked = entries@.filter(wanted);
        entries@.lemma_filter_pred(wanted, 0);
        assert(picked.contains(picked[0]));
        entries@.lemma_filter_contains_rev(wanted, picked[0]);
        let i = choose|i: int| 0 <= i < entries@.len() && entries@[i] == picked[0];
        assert(!regex_is_match(source, entries@[i].text@));
    }
}

/// Each case of a data test gives one test, in order, whatever the kind of its function. The test is
/// named after the parent and the case: by the location of the case, behind its name if it has one.
pub proof fn law_data_cases_are_rendered<H: Harness>(
    desc: &DataTestDesc<H>,
    cases: Seq<DataTestCaseDesc<DataTestFn<H::DataTestFn, H::DataBenchFn>>>,
    tests: Seq<TestDescAndFn<H>>,
)
    requires
        desc.are_cases(cases, tests),
    ensures
        tests.len() == cases.len(),
        forall|k: int|
            #![trigger tests[k]]
            #![trigger cases[k]]
            0 <= k < cases.len() ==> {
                &&& tests[k].desc.name matches TestName::DynTestName(text) && text@
                    == real_name_of(desc.name@) + "::"@ + match cases[k].name {
                    Some(name) => name@ + " ("@ + cases[k].location@ + ")"@,
                    None => cases[k].location@,
                }
                &&& tests[k].desc.ignore == desc.ignore
                &&& tests[k].desc.should_panic == ShouldPanic::No
                &&& !tests[k].desc.allow_fail
                &&& tests[k].desc.test_type == TestType::OfSource(desc.source_file)
                &&& match cases[k].case {
                    DataTestFn::TestFn(f) => tests[k].testfn matches TestFn::DynTestFn(
                        DynTestFn::Data(g),
                    ) && g == f,
                    DataTestFn::BenchFn(f) => tests[k].testfn matches TestFn::DynBenchFn(
                        DynBenchFn::Data(g),
                    ) && g == f,
                }
            },
{
    assert forall|k: int| 0 <= k < cases.len() implies desc.is_case(
        #[trigger] cases[k],
        tests[k],
    ) by {
        assert(desc.is_case(cases[k], tests[k]));
    }
}

/// A data test gives one test for each case that its function lists, in order, behind the tests that
/// are there; each as for given cases.
pub proof fn law_data_test_is_rendered<H: Harness>(
    desc: &DataTestDesc<H>,
    before: Seq<TestDescAndFn<H>>,
    after: Seq<TestDescAndFn<H>>,
)
    requires
        desc.rendering(before, after),
    ensures
        exists|cases: Vec<DataTestCaseDesc<DataTestFn<H::DataTestFn, H::DataBenchFn>>>| #[trigger]
            call_ensures(desc.describefn, (), cases) && ({
                let added = after.skip(before.len() as int);
                &&& after == before + added
                &&& added.len() == cases@.len()
                &&& forall|k: int|
                    #![trigger added[k]]
                    #![trigger cases@[k]]
                    0 <= k < cases@.len() ==> {
                        &&& added[k].desc.name matches TestName::DynTestName(text) && text@
                            == real_name_of(desc.name@) + "::"@ + match cases@[k].name {
                            Some(name) => name@ + " ("@ + cases@[k].location@ + ")"@,
                            None => cases@[k].location@,
                        }
                        &&& added[k].desc.ignore == desc.ignore
                        &&& added[k].desc.should_panic == ShouldPanic::No
                        &&& !added[k].desc.allow_fail
                        &&& added[k].desc.test_type == TestType::OfSource(desc.source_file)
                        &&& match cases@[k].case {
                            DataTestFn::TestFn(f) => added[k].testfn matches TestFn::DynTestFn(
                                DynTestFn::Data(g),
                            ) && g == f,
                            DataTestFn::BenchFn(f) => added[k].testfn matches TestFn::DynBenchFn(
                                DynBenchFn::Data(g),
                            ) && g == f,
                        }
                    }
            }),
{
    let added = after.skip(before.len() as int);
    let cases = choose|
        cases: Vec<DataTestCaseDesc<DataTestFn<H::DataTestFn, H::DataBenchFn>>>,
    | #[trigger]
        desc.describes(cases) && before.is_prefix_of(after) && desc.are_cases(cases@, added);
    law_data_cases_are_rendered(desc, cases@, added);
    assert(after == before + added);
    assert(call_ensures(desc.describefn, (), cases));
}

/// Two cases of a data test without names, or of the same name, get tests with different names if
/// they stand at different locations.
pub proof fn law_data_cases_keep_apart<H: Harness>(
    desc: &DataTestDesc<H>,
    cases: Seq<DataTestCaseDesc<DataTestFn<H::DataTestFn, H::DataBenchFn>>>,
    tests: Seq<TestDescAndFn<H>>,
    i: int,
    j: int,
)
    requires
        desc.are_cases(cases, tests),
        0 <= i < cases.len(),
        0 <= j < cases.len(),
        match (cases[i].name, cases[j].name) {
            (None, None) => true,
            (Some(one), Some(other)) => one@ == other@,
            _ => false,
        },
        cases[i].location@ != cases[j].location@,
    ensures
        match (tests[i].desc.name, tests[j].desc.name) {
            (TestName::DynTestName(one), TestName::DynTestName(other)) => one@ != other@,
            _ => false,
        },
{
    law_data_cases_are_rendered(desc, cases, tests);
    let prefix = real_name_of(desc.name@) + "::"@;
    let one = tests[i].desc.name->DynTestName_0@;
    let other = tests[j].desc.name->DynTestName_0@;
    if one == other {
        match (cases[i].name, cases[j].name) {
            (None, None) => {
                assert(one.skip(prefix.len() as int) == cases[i].location@);
                assert(other.skip(prefix.len() as int) == cases[j].location@);
            },
            (Some(name), Some(same)) => {
                let start = (prefix + name@ + " ("@).len() as int;
                let end = one.len() - ")"@.len();
                reveal_strlit(")");
                assert(one.subrange(start, end) == cases[i].location@);
                assert(other.subrange(start, end) == cases[j].location@);
            },
            _ => {},
        }
    }
}

/// A test that the compiler hands over with a static function is passed on as it is: the same
/// description in every part, and the same function. One with data is refused, and nothing changes.
pub proof fn law_compiler_test_is_passed_on<
    'a,
    H: Harness,
    W: Fn(&'static str) -> Vec<WalkEntry<H::Path>>,
>(
    test: &'a TestDescAndFn<H>,
    walk: W,
    before: Seq<TestDescAndFn<H>>,
    after: Seq<TestDescAndFn<H>>,
    result: Result<(), RenderError>,
)
    requires
        DatatestTestDesc::Test(test).rendering(walk, before, after, result),
    ensures
        match test.testfn {
            TestFn::DynTestFn(_) | TestFn::DynBenchFn(_) => {
                &&& result matches Err(error) && error is NotStatic
                &&& after == before
            },
            _ => {
                &&& result is Ok
                &&& after.len() == before.len() + 1
                &&& after.drop_last() == before
                &&& after.last().desc.name == test.desc.name
                &&& after.last().desc.ignore == test.desc.ignore
                &&& after.last().desc.should_panic == test.desc.should_panic
                &&& after.last().desc.allow_fail == test.desc.allow_fail
                &&& after.last().desc.test_type == test.desc.test_type
                &&& after.last().testfn == test.testfn
            },
        },
        test.testfn.is_static() <==> test.testfn is StaticTestFn || test.testfn is StaticBenchFn,
{
    if test.testfn is StaticTestFn || test.testfn is StaticBenchFn {
        assert(after.drop_last() == before);
    }
}

/// A regular test gives one test with its name, without the crate, and with its own expectations and
/// function.
pub proof fn law_regular_test_is_rendered<
    'a,
    H: Harness,
    W: Fn(&'static str) -> Vec<WalkEntry<H::Path>>,
>(
    regular: &'a RegularTestDesc<H>,
    walk: W,
    before: Seq<TestDescAndFn<H>>,
    after: Seq<TestDescAndFn<H>>,
    result: Result<(), RenderError>,
)
    requires
        DatatestTestDesc::RegularTest(regular).rendering(walk, before, after, result),
    ensures
        result is Ok,
        after.len() == before.len() + 1,
        after.drop_last() == before,
        after.last().desc.name matches TestName::StaticTestName(name) && name@ == real_name_of(
            regular.name@,
        ),
        after.last().desc.ignore == regular.ignore,
        match regular.should_panic {
            RegularShouldPanic::No => after.last().desc.should_panic is No,
            RegularShouldPanic::Yes => after.last().desc.should_panic is Yes,
            RegularShouldPanic::YesWithMessage(msg) => after.last().desc.should_panic
                == ShouldPanic::YesWithMessage(msg),
        },
        !after.last().desc.allow_fail,
        after.last().desc.test_type == TestType::OfSource(regular.source_file),
        after.last().testfn matches TestFn::StaticTestFn(f) && f == regular.testfn,
{
}

/// Whether a regular test is to panic, and with which message, is said by the like-named variant.
pub proof fn law_should_panic_is_converted(value: RegularShouldPanic)
    ensures
        <ShouldPanic as vstd::std_specs::convert::FromSpec<RegularShouldPanic>>::obeys_from_spec(),
        match value {
            RegularShouldPanic::No => <ShouldPanic as vstd::std_specs::convert::FromSpec<
                _,
            >>::from_spec(value) is No,
            RegularShouldPanic::Yes => <ShouldPanic as vstd::std_specs::convert::FromSpec<
                _,
            >>::from_spec(value) is Yes,
            RegularShouldPanic::YesWithMessage(msg) => <ShouldPanic as vstd::std_specs::convert::FromSpec<
                _,
            >>::from_spec(value) == ShouldPanic::YesWithMessage(msg),
        },
{
}

/// Tests on files and on data are rendered as such, whatever way the descriptor comes.
pub proof fn law_descriptor_is_rendered_by_kind<
    'a,
    H: Harness,
    W: Fn(&'static str) -> Vec<WalkEntry<H::Path>>,
>(
    desc: DatatestTestDesc<'a, H>,
    walk: W,
    before: Seq<TestDescAndFn<H>>,
    after: Seq<TestDescAndFn<H>>,
    result: Result<(), RenderError>,
)
    requires
        desc.rendering(walk, before, after, result),
    ensures
        match desc {
            DatatestTestDesc::FilesTest(files) => files.rendering(walk, before, after, result),
            DatatestTestDesc::DataTest(data) => result is Ok && data.rendering(before, after),
            _ => true,
        },
{
}

/// A descriptor behind a trait object is the object itself.
pub proof fn law_descriptors_are_themselves<H: Harness>(
    test: TestDescAndFn<H>,
    files: FilesTestDesc<H>,
    data: DataTestDesc<H>,
    regular: RegularTestDesc<H>,
)
    ensures
        test.datatest_desc() == DatatestTestDesc::Test(&test),
        files.datatest_desc() == DatatestTestDesc::FilesTest(&files),
        data.datatest_desc() == DatatestTestDesc::DataTest(&data),
        regular.datatest_desc() == DatatestTestDesc::RegularTest(&regular),
{
}

/// An exact filter that is just the name of a parent, without the crate, becomes a filter on the
/// beginning of its children's names; any other options stay as they are.
pub proof fn law_options_are_adjusted_for_parent(before: TestOpts, after: TestOpts, name: Seq<char>)
    requires
        after@ == before@.adjusted(name),
    ensures
        if before.filter_exact && (before.filter matches Some(filter) && filter@ == real_name_of(
            name,
        )) {
            &&& !after.filter_exact
            &&& after.filter matches Some(filter) && filter@ == real_name_of(name) + "::"@
        } else {
            &&& after.filter_exact == before.filter_exact
            &&& match (before.filter, after.filter) {
                (Some(one), Some(other)) => one@ == other@,
                (None, None) => true,
                _ => false,
            }
        },
{
}

/// At whatever depth of modules a parent stands in its crate, an exact filter on the rest of its path
/// is adjusted to its children.
pub proof fn law_options_are_adjusted_at_any_depth(
    before: TestOpts,
    after: TestOpts,
    krate: Seq<char>,
    rest: Seq<char>,
)
    requires
        forall|j: int| 0 <= j < krate.len() ==> #[trigger] krate[j] != ':',
        after@ == before@.adjusted(krate + "::"@ + rest),
        before.filter_exact,
        before.filter matches Some(filter) && filter@ == rest,
    ensures
        !after.filter_exact,
        after.filter matches Some(filter) && filter@ == rest + "::"@,
{
    let name = krate + "::"@ + rest;
    reveal_strlit("::");
    let at = krate.len() as int;
    assert(name[at] == ':' && name[at + 1] == ':');
    assert forall|j: int| 0 <= j < at implies !(#[trigger] name[j] == ':' && name[j + 1] == ':') by {
        assert(name[j] == krate[j]);
    }
    law_name_is_cut_behind_first_two_colons(name, at);
    assert(name.skip(at + 2) == rest);
    law_options_are_adjusted_for_parent(before, after, name);
}

/// Only a test on files or on data adjusts the options, and it does so for its own name.
pub proof fn law_parents_adjust_for_their_name<'a, H: Harness>(
    desc: DatatestTestDesc<'a, H>,
    opts: TestOptsView,
)
    ensures
        desc.adjusting(opts) == match desc {
            DatatestTestDesc::FilesTest(files) => opts.adjusted(files.name@),
            DatatestTestDesc::DataTest(data) => opts.adjusted(data.name@),
            _ => opts,
        },
{
}

/// After a run an exact filter that is just the name of one of the parents, without the crate, is a
/// filter on the beginning of its children's names; any other options are as they were.
pub proof fn law_run_adjusts_exact_filter<'a, H: Harness>(
    inputs: Seq<DatatestTestDesc<'a, H>>,
    before: TestOpts,
    after: TestOpts,
)
    requires
        after@ == adjusting_all(inputs, before@),
    ensures
        if before.filter_exact && exists|i: int|
            0 <= i < inputs.len() && match #[trigger] inputs[i] {
                DatatestTestDesc::FilesTest(files) => before.filter matches Some(filter) && filter@
                    == real_name_of(files.name@),
                DatatestTestDesc::DataTest(data) => before.filter matches Some(filter) && filter@
                    == real_name_of(data.name@),
                _ => false,
            } {
            &&& !after.filter_exact
            &&& after.filter matches Some(filter) && filter@ == before.filter->0@ + "::"@
        } else {
            &&& after.filter_exact == before.filter_exact
            &&& match (before.filter, after.filter) {
                (Some(one), Some(other)) => one@ == other@,
                (None, None) => true,
                _ => false,
            }
        },
{
    lemma_run_adjusts(inputs, before@);
    if before.filter_exact && exists|i: int|
        0 <= i < inputs.len() && match #[trigger] inputs[i] {
            DatatestTestDesc::FilesTest(files) => before.filter matches Some(filter) && filter@
                == real_name_of(files.name@),
            DatatestTestDesc::DataTest(data) => before.filter matches Some(filter) && filter@
                == real_name_of(data.name@),
            _ => false,
        } {
        let i = choose|i: int|
            0 <= i < inputs.len() && match #[trigger] inputs[i] {
                DatatestTestDesc::FilesTest(files) => before.filter matches Some(filter) && filter@
                    == real_name_of(files.name@),
                DatatestTestDesc::DataTest(data) => before.filter matches Some(filter) && filter@
                    == real_name_of(data.name@),
                _ => false,
            };
        assert(is_asked_for(inputs[i], before@));
    }
}

/// The descriptor is a parent, and the options ask for it by its name.
spec fn is_asked_for<'a, H: Harness>(desc: DatatestTestDesc<'a, H>, opts: TestOptsView) -> bool {
    opts.filter_exact && match desc {
        DatatestTestDesc::FilesTest(files) => opts.filter == Some(real_name_of(files.name@)),
        DatatestTestDesc::DataTest(data) => opts.filter == Some(real_name_of(data.name@)),
        _ => false,
    }
}

/// What a run makes of the options.
proof fn lemma_run_adjusts<'a, H: Harness>(
    inputs: Seq<DatatestTestDesc<'a, H>>,
    opts: TestOptsView,
)
    ensures
        if exists|i: int| 0 <= i < inputs.len() && is_asked_for(#[trigger] inputs[i], opts) {
            adjusting_all(inputs, opts) == (TestOptsView {
                filter: Some(opts.filter->0 + "::"@),
                filter_exact: false,
            })
        } else {
            adjusting_all(inputs, opts) == opts
        },
    decreases inputs.len(),
{
    if inputs.len() > 0 {
        let head = inputs.drop_last();
        lemma_run_adjusts(head, opts);
        if exists|i: int| 0 <= i < head.len() && is_asked_for(#[trigger] head[i], opts) {
            let i = choose|i: int| 0 <= i < head.len() && is_asked_for(#[trigger] head[i], opts);
            assert(is_asked_for(inputs[i], opts));
        } else {
            assert forall|i: int| 0 <= i < head.len() implies !is_asked_for(
                #[trigger] inputs[i],
                opts,
            ) by {
                assert(inputs[i] == head[i]);
            }
            assert(inputs.last() == inputs[inputs.len() - 1]);
        }
    }
}

/// A run renders each descriptor once, in order, each on top of what those before it gave.
pub proof fn law_run_renders_each_in_order<
    'a,
    H: Harness,
    W: Fn(&'static str) -> Vec<WalkEntry<H::Path>>,
>(
    inputs: Seq<DatatestTestDesc<'a, H>>,
    walk: W,
    before: Seq<TestDescAndFn<H>>,
    after: Seq<TestDescAndFn<H>>,
)
    requires
        rendering_all(inputs, walk, before, after),
    ensures
        exists|states: Seq<Seq<TestDescAndFn<H>>>|
            {
                &&& #[trigger] states.len() == inputs.len() + 1
                &&& states[0] == before
                &&& states[inputs.len() as int] == after
                &&& forall|i: int|
                    0 <= i < inputs.len() ==> (#[trigger] inputs[i]).rendering(
                        walk,
                        states[i],
                        states[i + 1],
                        Ok(()),
                    )
            },
    decreases inputs.len(),
{
    if inputs.len() == 0 {
        let states = seq![before];
        assert(states.len() == 1);
    } else {
        let head = inputs.drop_last();
        let between = choose|between: Seq<TestDescAndFn<H>>|
            rendering_all(inputs.drop_last(), walk, before, between)
                && #[trigger] inputs.last().rendering(walk, between, after, Ok(()));
        law_run_renders_each_in_order(head, walk, before, between);
        let early = choose|states: Seq<Seq<TestDescAndFn<H>>>|
            {
                &&& #[trigger] states.len() == head.len() + 1
                &&& states[0] == before
                &&& states[head.len() as int] == between
                &&& forall|i: int|
                    0 <= i < head.len() ==> (#[trigger] head[i]).rendering(
                        walk,
                        states[i],
                        states[i + 1],
                        Ok(()),
                    )
            };
        let states = early.push(after);
        assert forall|i: int| 0 <= i < inputs.len() implies (#[trigger] inputs[i]).rendering(
            walk,
            states[i],
            states[i + 1],
            Ok(()),
        ) by {
            if i < head.len() {
                assert(head[i] == inputs[i]);
                assert(head[i].rendering(walk, early[i], early[i + 1], Ok(())));
            } else {
                assert(inputs[i] == inputs.last());
            }
        }
        assert(states.len() == inputs.len() + 1);
    }
}

/// A run that is refused renders the descriptors before the refused one, and stops there.
pub proof fn law_run_stops_at_refused<
    'a,
    H: Harness,
    W: Fn(&'static str) -> Vec<WalkEntry<H::Path>>,
>(
    inputs: Seq<DatatestTestDesc<'a, H>>,
    walk: W,
    n: int,
    before: Seq<TestDescAndFn<H>>,
    after: Seq<TestDescAndFn<H>>,
    error: RenderError,
)
    requires
        refused_at(inputs, walk, n, before, after, error),
    ensures
        0 <= n < inputs.len(),
        inputs[n].rendering(walk, after, after, Err(error)),
        exists|states: Seq<Seq<TestDescAndFn<H>>>|
            {
                &&& #[trigger] states.len() == n + 1
                &&& states[0] == before
                &&& states[n] == after
                &&& forall|i: int|
                    0 <= i < n ==> (#[trigger] inputs[i]).rendering(
                        walk,
                        states[i],
                        states[i + 1],
                        Ok(()),
                    )
            },
{
    let head = inputs.take(n);
    law_run_renders_each_in_order(head, walk, before, after);
    let states = choose|states: Seq<Seq<TestDescAndFn<H>>>|
        {
            &&& #[trigger] states.len() == head.len() + 1
            &&& states[0] == before
            &&& states[head.len() as int] == after
            &&& forall|i: int|
                0 <= i < head.len() ==> (#[trigger] head[i]).rendering(
                    walk,
                    states[i],
                    states[i + 1],
                    Ok(()),
                )
        };
    assert forall|i: int| 0 <= i < n implies (#[trigger] inputs[i]).rendering(
        walk,
        states[i],
        states[i + 1],
        Ok(()),
    ) by {
        assert(head[i] == inputs[i]);
    }
    assert(states.len() == n + 1);
}

/// The descriptors behind a slice are those of its items, in order.
pub proof fn law_descriptors_stand_in_order<'a, H: Harness>(tests: Seq<&'a dyn TestDescriptor<H>>)
    ensures
        descriptors_of(tests).len() == tests.len(),
        forall|i: int|
            0 <= i < tests.len() ==> #[trigger] descriptors_of(tests)[i]
                == tests[i].datatest_desc(),
{
}

/// The registry lists its nodes from the head, link by link.
pub proof fn law_registry_follows_links<'a, H: Harness>(registry: Registry<'a, H>)
    ensures
        match registry.head {
            Some(node) => registry.descriptors() == seq![node.descriptor.datatest_desc()] + (
            Registry { head: node.next, used: registry.used }).descriptors(),
            None => registry.descriptors().len() == 0,
        },
        match registry.head {
            Some(node) => chain(registry.head) == seq![node.descriptor.datatest_desc()] + chain(
                node.next,
            ),
            None => chain(registry.head).len() == 0,
        },
{
}

/// A registered node keeps its descriptor and links to what was the head, whatever it linked to.
pub proof fn law_registered_node_links_to_head<'a, H: Harness>(
    node: RegistrationNode<'a, H>,
    head: Option<&'a RegistrationNode<'a, H>>,
)
    ensures
        linked(node, head).descriptor == node.descriptor,
        linked(node, head).next == head,
{
}

/// A test that returns nothing succeeded; one that returns a result did if the result is not an
/// error.
pub proof fn law_success_is_no_error<T, E>(result: Result<T, E>)
    ensures
        ().succeeded(),
        result.succeeded() <==> result is Ok,
{
}

/// What stands in contracts for an error, a name or options says of each part what the part holds.
pub proof fn law_views_say_what_is_held(error: RenderError, name: TestName, opts: TestOpts)
    ensures
        match error {
            RenderError::InvalidPattern { pattern } => error@ == (RenderErrorView::InvalidPattern {
                pattern: pattern@,
            }),
            RenderError::OutsideRoot { root, path } => error@ == (RenderErrorView::OutsideRoot {
                root: root@,
                path: path@,
            }),
            RenderError::NoTestCases { test, root, pattern } => error@ == (
            RenderErrorView::NoTestCases { test: test@, root: root@, pattern: pattern@ }),
            RenderError::NotStatic => error@ is NotStatic,
        },
        match name {
            TestName::StaticTestName(text) => name@ == text@,
            TestName::DynTestName(text) => name@ == text@,
        },
        opts@.filter_exact == opts.filter_exact,
        match opts.filter {
            Some(filter) => opts@.filter == Some(filter@),
            None => opts@.filter is None,
        },
{
}

/// Each refusal is reported by its own text, with what it is about put in.
pub proof fn law_refusals_are_reported(error: RenderError)
    ensures
        error@.message() == match error {
            RenderError::InvalidPattern { pattern } => "invalid regular expression: '"@ + pattern@
                + "'"@,
            RenderError::OutsideRoot { root, path } => "failed to strip prefix '"@ + root@
                + "' from path '"@ + path@ + "'"@,
            RenderError::NoTestCases { test, root, pattern } => "no test cases found for test '"@
                + test@ + "'. Scanned directory: '"@ + root@ + "' with pattern '"@ + pattern@ + "'"@,
            RenderError::NotStatic => "not implemented: only static functions are supported"@,
        },
{
}

} // verus!
