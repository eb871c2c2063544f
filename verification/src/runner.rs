//! The test runner: turns descriptors into the tests that the harness runs.
use vstd::prelude::*;

use crate::data::render_data_test;
use crate::descriptor::DatatestTestDesc;
use crate::descriptor::RegularTestDesc;
use crate::descriptor::TestDescriptor;
use crate::error::RenderError;
use crate::error::RenderErrorView;
use crate::files::render_files_test;
use crate::files::WalkEntry;
use crate::harness::Harness;
use crate::harness::ShouldPanic;
use crate::harness::TestDesc;
use crate::harness::TestDescAndFn;
use crate::harness::TestFn;
use crate::harness::TestName;
use crate::harness::TestOpts;
use crate::harness::TestType;
use crate::names::real_name;
use crate::names::real_name_of;
use crate::registry::Registry;

verus! {

/// Copies what a test runs. The tests that the compiler hands over are borrowed, so their functions
/// have to be copied; only static ones can be.
pub fn clone_testfn<H: Harness>(testfn: &TestFn<H>) -> (copy: Result<TestFn<H>, RenderError>)
    ensures
        match copy {
            Ok(copied) => testfn.is_static() && copied == *testfn,
            Err(error) => !testfn.is_static() && error@ == RenderErrorView::NotStatic,
        },
{
    match testfn {
        TestFn::StaticTestFn(func) => Ok(TestFn::StaticTestFn(*func)),
        TestFn::StaticBenchFn(bench) => Ok(TestFn::StaticBenchFn(*bench)),
        _ => Err(RenderError::NotStatic),
    }
}

/// [`TestOpts`] over mathematical strings.
pub struct TestOptsView {
    pub filter: Option<Seq<char>>,
    pub filter_exact: bool,
}

impl View for TestOpts {
    type V = TestOptsView;

    open spec fn view(&self) -> TestOptsView {
        TestOptsView { filter: self.filter.deep_view(), filter_exact: self.filter_exact }
    }
}

impl TestOptsView {
    /// The options ask for the one test that is called like the parent test `name`.
    pub open spec fn asks_for(self, name: Seq<char>) -> bool {
        self.filter_exact && self.filter == Some(real_name_of(name))
    }

    /// The options after the parent test `name` has been rendered: if they ask for the parent,
    /// which is not itself a test, they now ask for its children.
    pub open spec fn adjusted(self, name: Seq<char>) -> TestOptsView {
        if self.asks_for(name) {
            TestOptsView { filter: Some(real_name_of(name) + "::"@), filter_exact: false }
        } else {
            self
        }
    }
}

/// When the filter is exact and is just the name of a parent test (which is not a real test, but a
/// template for its children), adjusts the options to run all its children instead.
pub fn adjust_for_test_name(opts: &mut TestOpts, name: &str)
    ensures
        final(opts)@ == old(opts)@.adjusted(name@),
{
    let real_test_name: String = real_name(name).to_string();
    let is_parent: bool = match &opts.filter {
        Some(filter) => *filter == real_test_name,
        None => false,
    };
    if opts.filter_exact && is_parent {
        opts.filter_exact = false;
        opts.filter = Some(real_test_name.concat("::"));
    }
}

impl<H: Harness> RegularTestDesc<H> {
    /// `test` is the test that the descriptor stands for.
    pub open spec fn is_rendered_as(&self, test: TestDescAndFn<H>) -> bool {
        &&& test.desc.name is StaticTestName
        &&& test.desc.name@ == real_name_of(self.name@)
        &&& test.desc.ignore == self.ignore
        &&& test.desc.should_panic
            == <ShouldPanic as vstd::std_specs::convert::FromSpec<_>>::from_spec(self.should_panic)
        &&& !test.desc.allow_fail
        &&& test.desc.test_type == TestType::OfSource(self.source_file)
        &&& test.testfn == TestFn::<H>::StaticTestFn(self.testfn)
    }
}

impl<'a, H: Harness> DatatestTestDesc<'a, H> {
    /// Rendering the descriptor turns `before` into `after` with `result`, if `walk` is what walks
    /// through directories.
    pub open spec fn rendering<W: Fn(&'static str) -> Vec<WalkEntry<H::Path>>>(
        self,
        walk: W,
        before: Seq<TestDescAndFn<H>>,
        after: Seq<TestDescAndFn<H>>,
        result: Result<(), RenderError>,
    ) -> bool {
        match self {
            DatatestTestDesc::Test(test) => if test.testfn.is_static() {
                result is Ok && after == before.push(*test)
            } else {
                &&& after == before
                &&& result matches Err(error) && error@ == RenderErrorView::NotStatic
            },
            DatatestTestDesc::FilesTest(files) => files.rendering(walk, before, after, result),
            DatatestTestDesc::DataTest(data) => result is Ok && data.rendering(before, after),
            DatatestTestDesc::RegularTest(regular) => {
                &&& result is Ok
                &&& after.len() == before.len() + 1
                &&& after.drop_last() == before
                &&& regular.is_rendered_as(after.last())
            },
        }
    }

    /// The options after the descriptor has been rendered.
    pub open spec fn adjusting(self, opts: TestOptsView) -> TestOptsView {
        match self {
            DatatestTestDesc::FilesTest(files) => opts.adjusted(files.name@),
            DatatestTestDesc::DataTest(data) => opts.adjusted(data.name@),
            _ => opts,
        }
    }
}

/// Renders one descriptor, and adjusts the options if it is a parent test that they ask for.
pub fn render_test_descriptor<'a, H: Harness, W: Fn(&'static str) -> Vec<WalkEntry<H::Path>>>(
    input: DatatestTestDesc<'a, H>,
    opts: &mut TestOpts,
    walk: &W,
    rendered: &mut Vec<TestDescAndFn<H>>,
) -> (result: Result<(), RenderError>)
    requires
        input.well_formed(),
        forall|root: &'static str| call_requires(*walk, (root,)),
    ensures
        input.rendering(*walk, old(rendered)@, final(rendered)@, result),
        final(opts)@ == if result is Ok {
            input.adjusting(old(opts)@)
        } else {
            old(opts)@
        },
{
    match input {
        DatatestTestDesc::Test(test) => {
            // The test is only borrowed.
            match clone_testfn(&test.testfn) {
                Ok(testfn) => {
                    rendered.push(TestDescAndFn { desc: test.desc.clone(), testfn });
                    Ok(())
                },
                Err(error) => Err(error),
            }
        },
        DatatestTestDesc::FilesTest(files) => {
            match render_files_test(files, walk, rendered) {
                Ok(()) => {
                    adjust_for_test_name(opts, files.name);
                    Ok(())
                },
                Err(error) => Err(error),
            }
        },
        DatatestTestDesc::DataTest(data) => {
            render_data_test(data, rendered);
            adjust_for_test_name(opts, data.name);
            Ok(())
        },
        DatatestTestDesc::RegularTest(desc) => {
            rendered.push(
                TestDescAndFn {
                    desc: TestDesc {
                        name: TestName::StaticTestName(real_name(desc.name)),
                        ignore: desc.ignore,
                        should_panic: ShouldPanic::from(desc.should_panic),
                        allow_fail: false,
                        test_type: TestType::OfSource(desc.source_file),
                    },
                    testfn: TestFn::StaticTestFn(desc.testfn),
                },
            );
            assert(rendered@.drop_last() == old(rendered)@);
            Ok(())
        },
    }
}

/// The descriptors behind `tests`.
pub open spec fn descriptors_of<'a, H: Harness>(tests: Seq<&'a dyn TestDescriptor<H>>) -> Seq<
    DatatestTestDesc<'a, H>,
> {
    tests.map_values(|test: &'a dyn TestDescriptor<H>| test.datatest_desc())
}

/// Lists the descriptors behind `tests`.
pub fn list_descriptors<'a, H: Harness>(tests: &[&'a dyn TestDescriptor<H>]) -> (descriptors: Vec<
    DatatestTestDesc<'a, H>,
>)
    ensures
        descriptors@ == descriptors_of(tests@),
{
    let mut descriptors: Vec<DatatestTestDesc<'a, H>> = Vec::with_capacity(tests.len());
    let mut i: usize = 0;
    while i < tests.len()
        invariant
            i <= tests@.len(),
            descriptors@ == descriptors_of(tests@.take(i as int)),
        decreases tests@.len() - i,
    {
        descriptors.push(tests[i].as_datatest_desc());
        i = i + 1;
    }
    assert(tests@.take(i as int) == tests@);
    descriptors
}

/// Rendering `inputs` one after the other, without a refusal, turns `before` into `after`.
pub open spec fn rendering_all<'a, H: Harness, W: Fn(&'static str) -> Vec<WalkEntry<H::Path>>>(
    inputs: Seq<DatatestTestDesc<'a, H>>,
    walk: W,
    before: Seq<TestDescAndFn<H>>,
    after: Seq<TestDescAndFn<H>>,
) -> bool
    decreases inputs.len(),
{
    if inputs.len() == 0 {
        after == before
    } else {
        exists|between: Seq<TestDescAndFn<H>>|
            rendering_all(inputs.drop_last(), walk, before, between)
                && #[trigger] inputs.last().rendering(walk, between, after, Ok(()))
    }
}

/// The options after `inputs` have been rendered one after the other.
pub open spec fn adjusting_all<'a, H: Harness>(
    inputs: Seq<DatatestTestDesc<'a, H>>,
    opts: TestOptsView,
) -> TestOptsView
    decreases inputs.len(),
{
    if inputs.len() == 0 {
        opts
    } else {
        inputs.last().adjusting(adjusting_all(inputs.drop_last(), opts))
    }
}

/// All descriptors of `inputs` can be rendered.
pub open spec fn all_well_formed<'a, H: Harness>(inputs: Seq<DatatestTestDesc<'a, H>>) -> bool {
    forall|i: int| #![trigger inputs[i]] 0 <= i < inputs.len() ==> inputs[i].well_formed()
}

/// Rendering `inputs` one after the other ends with `error`: the first `n` turn `before` into `after`,
/// and the next one is refused.
pub open spec fn refused_at<'a, H: Harness, W: Fn(&'static str) -> Vec<WalkEntry<H::Path>>>(
    inputs: Seq<DatatestTestDesc<'a, H>>,
    walk: W,
    n: int,
    before: Seq<TestDescAndFn<H>>,
    after: Seq<TestDescAndFn<H>>,
    error: RenderError,
) -> bool {
    &&& 0 <= n < inputs.len()
    &&& rendering_all(inputs.take(n), walk, before, after)
    &&& inputs[n].rendering(walk, after, after, Err(error))
}

/// One more descriptor has been rendered.
proof fn lemma_rendering_next<'a, H: Harness, W: Fn(&'static str) -> Vec<WalkEntry<H::Path>>>(
    inputs: Seq<DatatestTestDesc<'a, H>>,
    walk: W,
    n: int,
    before: Seq<TestDescAndFn<H>>,
    between: Seq<TestDescAndFn<H>>,
    after: Seq<TestDescAndFn<H>>,
    opts: TestOptsView,
)
    requires
        0 <= n < inputs.len(),
        rendering_all(inputs.take(n), walk, before, between),
        inputs[n].rendering(walk, between, after, Ok(())),
    ensures
        rendering_all(inputs.take(n + 1), walk, before, after),
        adjusting_all(inputs.take(n + 1), opts) == inputs[n].adjusting(
            adjusting_all(inputs.take(n), opts),
        ),
{
    assert(inputs.take(n + 1).drop_last() == inputs.take(n));
    assert(inputs.take(n + 1).last() == inputs[n]);
}

/// Rendering some descriptors and then others is rendering all of them.
pub proof fn lemma_rendering_concat<
    'a,
    H: Harness,
    W: Fn(&'static str) -> Vec<WalkEntry<H::Path>>,
>(
    first: Seq<DatatestTestDesc<'a, H>>,
    second: Seq<DatatestTestDesc<'a, H>>,
    walk: W,
    before: Seq<TestDescAndFn<H>>,
    between: Seq<TestDescAndFn<H>>,
    after: Seq<TestDescAndFn<H>>,
)
    requires
        rendering_all(first, walk, before, between),
        rendering_all(second, walk, between, after),
    ensures
        rendering_all(first + second, walk, before, after),
    decreases second.len(),
{
    if second.len() == 0 {
        assert(first + second == first);
    } else {
        let late = choose|late: Seq<TestDescAndFn<H>>|
            rendering_all(second.drop_last(), walk, between, late)
                && #[trigger] second.last().rendering(walk, late, after, Ok(()));
        lemma_rendering_concat(first, second.drop_last(), walk, before, between, late);
        assert((first + second).drop_last() == first + second.drop_last());
        assert((first + second).last() == second.last());
    }
}

/// Adjusting for some descriptors and then for others is adjusting for all of them.
pub proof fn lemma_adjusting_concat<'a, H: Harness>(
    first: Seq<DatatestTestDesc<'a, H>>,
    second: Seq<DatatestTestDesc<'a, H>>,
    opts: TestOptsView,
)
    ensures
        adjusting_all(first + second, opts) == adjusting_all(second, adjusting_all(first, opts)),
    decreases second.len(),
{
    if second.len() == 0 {
        assert(first + second == first);
    } else {
        lemma_adjusting_concat(first, second.drop_last(), opts);
        assert((first + second).drop_last() == first + second.drop_last());
        assert((first + second).last() == second.last());
    }
}

/// Renders `inputs` one after the other, up to the first one that is refused.
pub fn render_all<'a, H: Harness, W: Fn(&'static str) -> Vec<WalkEntry<H::Path>>>(
    inputs: Vec<DatatestTestDesc<'a, H>>,
    opts: &mut TestOpts,
    walk: &W,
    rendered: &mut Vec<TestDescAndFn<H>>,
) -> (result: Result<(), RenderError>)
    requires
        all_well_formed(inputs@),
        forall|root: &'static str| call_requires(*walk, (root,)),
    ensures
        match result {
            Ok(_) => {
                &&& rendering_all(inputs@, *walk, old(rendered)@, final(rendered)@)
                &&& final(opts)@ == adjusting_all(inputs@, old(opts)@)
            },
            Err(error) => exists|n: int| #[trigger]
                refused_at(inputs@, *walk, n, old(rendered)@, final(rendered)@, error)
                    && final(opts)@ == adjusting_all(inputs@.take(n), old(opts)@),
        },
{
    let ghost all = inputs@;
    assert(all.take(0).len() == 0);
    for input in it: inputs
        invariant
            it.seq() == all,
            all_well_formed(all),
            forall|root: &'static str| call_requires(*walk, (root,)),
            rendering_all(all.take(it.index()), *walk, old(rendered)@, rendered@),
            opts@ == adjusting_all(all.take(it.index()), old(opts)@),
    {
        let ghost n = it.index();
        let ghost between = rendered@;
        assert(all[n] == input);
        match render_test_descriptor(input, opts, walk, rendered) {
            Ok(()) => {},
            Err(error) => {
                proof {
                    crate::laws::law_rendering_only_adds(
                        input,
                        *walk,
                        between,
                        rendered@,
                        Err(error),
                    );
                }
                assert(refused_at(all, *walk, n, old(rendered)@, rendered@, error));
                return Err(error);
            },
        }
        proof {
            lemma_rendering_next(
                all,
                *walk,
                n,
                old(rendered)@,
                between,
                rendered@,
                old(opts)@,
            );
        }
    }
    assert(all.take(all.len() as int) == all);
    Ok(())
}

/// Expands the descriptors in `tests`, and after them those in the registry, into tests that the
/// harness understands. A regular test gives one test; a test on files or on data gives as many
/// as there are cases. `walk` lists what is below a directory.
///
/// Once `tests` have been expanded, the registry counts as looked at.
pub fn runner<'a, H: Harness, W: Fn(&'static str) -> Vec<WalkEntry<H::Path>>>(
    tests: &[&'a dyn TestDescriptor<H>],
    registry: &mut Registry<'a, H>,
    opts: &mut TestOpts,
    walk: &W,
) -> (result: Result<Vec<TestDescAndFn<H>>, RenderError>)
    requires
        all_well_formed(descriptors_of(tests@) + old(registry).descriptors()),
        forall|root: &'static str| call_requires(*walk, (root,)),
    ensures
        final(registry).head == old(registry).head,
        ({
            let inputs = descriptors_of(tests@) + old(registry).descriptors();
            let nothing = Seq::<TestDescAndFn<H>>::empty();
            match result {
                Ok(rendered) => {
                    &&& rendering_all(inputs, *walk, nothing, rendered@)
                    &&& final(opts)@ == adjusting_all(inputs, old(opts)@)
                    &&& final(registry).used
                },
                Err(error) => exists|n: int, rendered: Seq<TestDescAndFn<H>>|
                    {
                        &&& #[trigger] refused_at(inputs, *walk, n, nothing, rendered, error)
                        &&& final(opts)@ == adjusting_all(inputs.take(n), old(opts)@)
                        &&& final(registry).used == (old(registry).used || n >= tests@.len())
                    },
            }
        }),
{
    let ghost first = descriptors_of(tests@);
    let ghost second = registry.descriptors();
    let ghost inputs = first + second;
    let ghost nothing = Seq::<TestDescAndFn<H>>::empty();
    let mut rendered: Vec<TestDescAndFn<H>> = Vec::new();
    proof {
        assert forall|i: int|
            #![trigger first[i]]
            0 <= i < first.len() implies first[i].well_formed() by {
            assert(inputs[i] == first[i]);
        }
        assert forall|i: int|
            #![trigger second[i]]
            0 <= i < second.len() implies second[i].well_formed() by {
            assert(inputs[first.len() + i] == second[i]);
        }
    }
    match render_all(list_descriptors(tests), opts, walk, &mut rendered) {
        Ok(()) => {},
        Err(error) => {
            proof {
                let n = choose|n: int| #[trigger]
                    refused_at(first, *walk, n, nothing, rendered@, error) && opts@ == adjusting_all(
                        first.take(n),
                        old(opts)@,
                    );
                assert(inputs.take(n) == first.take(n));
                assert(refused_at(inputs, *walk, n, nothing, rendered@, error));
            }
            return Err(error);
        },
    }
    let ghost between = rendered@;
    let ghost opts_between = opts@;
    match render_all(registry.look(), opts, walk, &mut rendered) {
        Ok(()) => {},
        Err(error) => {
            proof {
                let n = choose|n: int| #[trigger]
                    refused_at(second, *walk, n, between, rendered@, error) && opts@
                        == adjusting_all(second.take(n), opts_between);
                assert(inputs.take(first.len() + n) == first + second.take(n));
                lemma_rendering_concat(first, second.take(n), *walk, nothing, between, rendered@);
                lemma_adjusting_concat(first, second.take(n), old(opts)@);
                assert(refused_at(inputs, *walk, first.len() + n, nothing, rendered@, error));
            }
            return Err(error);
        },
    }
    proof {
        lemma_rendering_concat(first, second, *walk, nothing, between, rendered@);
        lemma_adjusting_concat(first, second, old(opts)@);
    }
    Ok(rendered)
}

/// Why a run of the harness counts as failed.
#[derive(Debug, PartialEq, Eq)]
pub enum RunError<E> {
    /// Some tests failed.
    TestsFailed,
    /// The harness could not run the tests.
    Io(E),
}

/// The verdict on a run, from what the harness returned: whether all tests passed, or why they could
/// not be run.
pub fn conclude<E>(outcome: Result<bool, E>) -> (verdict: Result<(), RunError<E>>)
    ensures
        verdict == match outcome {
            Ok(true) => Ok::<(), RunError<E>>(()),
            Ok(false) => Err(RunError::TestsFailed),
            Err(error) => Err(RunError::Io(error)),
        },
{
    match outcome {
        Ok(true) => Ok(()),
        Ok(false) => Err(RunError::TestsFailed),
        Err(error) => Err(RunError::Io(error)),
    }
}

} // verus!
