//! Data tests: one test for each of a list of cases.
use vstd::prelude::*;

use crate::descriptor::DataTestDesc;
use crate::harness::DataTestCaseDesc;
use crate::harness::DataTestFn;
use crate::harness::DynBenchFn;
use crate::harness::DynTestFn;
use crate::harness::Harness;
use crate::harness::ShouldPanic;
use crate::harness::TestDesc;
use crate::harness::TestDescAndFn;
use crate::harness::TestFn;
use crate::harness::TestName;
use crate::harness::TestType;
use crate::names::child_name;
use crate::names::join_name;

verus! {

/// What a case is called: its location, after its name if it has one.
pub open spec fn case_label<T>(case: DataTestCaseDesc<T>) -> Seq<char> {
    match case.name {
        Some(name) => name@ + " ("@ + case.location@ + ")"@,
        None => case.location@,
    }
}

impl<H: Harness> DataTestDesc<H> {
    /// `test` is the test on `case`.
    pub open spec fn is_case(
        &self,
        case: DataTestCaseDesc<DataTestFn<H::DataTestFn, H::DataBenchFn>>,
        test: TestDescAndFn<H>,
    ) -> bool {
        &&& test.desc.name is DynTestName
        &&& test.desc.name@ == child_name(self.name@, case_label(case))
        &&& test.desc.ignore == self.ignore
        &&& test.desc.should_panic == ShouldPanic::No
        &&& !test.desc.allow_fail
        &&& test.desc.test_type == TestType::OfSource(self.source_file)
        &&& test.testfn == match case.case {
            DataTestFn::TestFn(testfn) => TestFn::<H>::DynTestFn(DynTestFn::Data(testfn)),
            DataTestFn::BenchFn(benchfn) => TestFn::<H>::DynBenchFn(DynBenchFn::Data(benchfn)),
        }
    }

    /// `tests` are the tests on `cases`, in their order.
    pub open spec fn are_cases(
        &self,
        cases: Seq<DataTestCaseDesc<DataTestFn<H::DataTestFn, H::DataBenchFn>>>,
        tests: Seq<TestDescAndFn<H>>,
    ) -> bool {
        &&& tests.len() == cases.len()
        &&& forall|k: int|
            #![trigger tests[k]]
            0 <= k < tests.len() ==> self.is_case(cases[k], tests[k])
    }

    /// Rendering the test turns `before` into `after`.
    pub open spec fn rendering(
        &self,
        before: Seq<TestDescAndFn<H>>,
        after: Seq<TestDescAndFn<H>>,
    ) -> bool {
        exists|cases: Vec<DataTestCaseDesc<DataTestFn<H::DataTestFn, H::DataBenchFn>>>| #[trigger]
            self.describes(cases) && before.is_prefix_of(after) && self.are_cases(
                cases@,
                after.skip(before.len() as int),
            )
    }
}

/// Renders the test of `desc` on each of `cases`.
pub fn render_cases<H: Harness>(
    desc: &DataTestDesc<H>,
    cases: Vec<DataTestCaseDesc<DataTestFn<H::DataTestFn, H::DataBenchFn>>>,
    rendered: &mut Vec<TestDescAndFn<H>>,
)
    ensures
        old(rendered)@.is_prefix_of(final(rendered)@),
        desc.are_cases(cases@, final(rendered)@.skip(old(rendered)@.len() as int)),
{
    let ghost all = cases@;
    for case in it: cases
        invariant
            it.seq() == all,
            old(rendered)@.is_prefix_of(rendered@),
            desc.are_cases(all.take(it.index()), rendered@.skip(old(rendered)@.len() as int)),
    {
        let ghost before = rendered@;
        let name = match &case.name {
            Some(name) => join_name(desc.name, name.as_str()).concat(" (").concat(
                case.location.as_str(),
            ).concat(")"),
            None => join_name(desc.name, case.location.as_str()),
        };
        assert(name@ == child_name(desc.name@, case_label(case)));
        let testfn = match case.case {
            DataTestFn::TestFn(testfn) => TestFn::DynTestFn(DynTestFn::Data(testfn)),
            DataTestFn::BenchFn(benchfn) => TestFn::DynBenchFn(DynBenchFn::Data(benchfn)),
        };
        rendered.push(
            TestDescAndFn {
                desc: TestDesc {
                    name: TestName::DynTestName(name),
                    ignore: desc.ignore,
                    should_panic: ShouldPanic::No,
                    allow_fail: false,
                    test_type: TestType::OfSource(desc.source_file),
                },
                testfn,
            },
        );
        assert(rendered@.skip(old(rendered)@.len() as int) == before.skip(
            old(rendered)@.len() as int,
        ).push(rendered@.last()));
    }
    assert(all.take(all.len() as int) == all);
}

/// Renders the test of `desc` on each of its cases.
pub fn render_data_test<H: Harness>(
    desc: &DataTestDesc<H>,
    rendered: &mut Vec<TestDescAndFn<H>>,
)
    requires
        desc.well_formed(),
    ensures
        desc.rendering(old(rendered)@, final(rendered)@),
{
    let cases = (desc.describefn)();
    assert(desc.describes(cases));
    render_cases(desc, cases, rendered);
}

} // verus!
