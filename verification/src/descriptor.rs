//! Test descriptors: what is known of a test before it is turned into tests to run.
use vstd::prelude::*;

use crate::harness::DataTestCaseDesc;
use crate::harness::DataTestFn;
use crate::harness::Harness;
use crate::harness::ShouldPanic;
use crate::harness::TestDescAndFn;

verus! {

/// Whether a regular test is expected to panic; the stable counterpart of [`ShouldPanic`].
#[derive(Clone, Copy, Debug, PartialEq, Eq)]
pub enum RegularShouldPanic {
    No,
    Yes,
    YesWithMessage(&'static str),
}

impl From<RegularShouldPanic> for ShouldPanic {
    fn from(value: RegularShouldPanic) -> (converted: Self) {
        match value {
            RegularShouldPanic::No => ShouldPanic::No,
            RegularShouldPanic::Yes => ShouldPanic::Yes,
            RegularShouldPanic::YesWithMessage(msg) => ShouldPanic::YesWithMessage(msg),
        }
    }
}

impl vstd::std_specs::convert::FromSpecImpl<RegularShouldPanic> for ShouldPanic {
    open spec fn obeys_from_spec() -> bool {
        true
    }

    open spec fn from_spec(value: RegularShouldPanic) -> Self {
        match value {
            RegularShouldPanic::No => ShouldPanic::No,
            RegularShouldPanic::Yes => ShouldPanic::Yes,
            RegularShouldPanic::YesWithMessage(msg) => ShouldPanic::YesWithMessage(msg),
        }
    }
}

/// A regular `#[test]`, for when the descriptors that the compiler makes cannot be had.
pub struct RegularTestDesc<H: Harness> {
    pub name: &'static str,
    pub ignore: bool,
    pub testfn: H::TestFn,
    pub should_panic: RegularShouldPanic,
    pub source_file: &'static str,
}

/// The function of a test on files.
pub enum FilesTestFn<H: Harness> {
    TestFn(H::FilesTestFn),
    BenchFn(H::FilesBenchFn),
}

/// A test that is run once for each file below a directory whose path matches a pattern.
pub struct FilesTestDesc<H: Harness> {
    pub name: &'static str,
    pub ignore: bool,
    /// The directory that is searched.
    pub root: &'static str,
    /// For each parameter of the test a template for its path; for one of them, the pattern.
    pub params: &'static [&'static str],
    /// Which of the parameters is the pattern.
    pub pattern: usize,
    pub ignorefn: Option<H::IgnoreFn>,
    pub testfn: FilesTestFn<H>,
    pub source_file: &'static str,
}

impl<H: Harness> FilesTestDesc<H> {
    /// One of the parameters is the pattern, and every path may be asked about.
    pub open spec fn well_formed(&self) -> bool {
        &&& self.pattern < self.params@.len()
        &&& self.ignorefn matches Some(f) ==> forall|path: &H::Path| call_requires(f, (path,))
    }

    /// The text of the pattern.
    pub open spec fn pattern_text(&self) -> Seq<char> {
        self.params@[self.pattern as int]@
    }
}

/// A test that is run once for each of a list of cases.
pub struct DataTestDesc<H: Harness> {
    pub name: &'static str,
    pub ignore: bool,
    pub describefn: H::DescribeFn,
    pub source_file: &'static str,
}

impl<H: Harness> DataTestDesc<H> {
    /// The cases may be asked for.
    pub open spec fn well_formed(&self) -> bool {
        call_requires(self.describefn, ())
    }

    /// `cases` is a list that the descriptor may give when asked for its cases.
    pub open spec fn describes(
        &self,
        cases: Vec<DataTestCaseDesc<DataTestFn<H::DataTestFn, H::DataBenchFn>>>,
    ) -> bool {
        call_ensures(self.describefn, (), cases)
    }
}

/// A descriptor of any of the kinds that the runner takes.
pub enum DatatestTestDesc<'a, H: Harness> {
    Test(&'a TestDescAndFn<H>),
    FilesTest(&'a FilesTestDesc<H>),
    DataTest(&'a DataTestDesc<H>),
    RegularTest(&'a RegularTestDesc<H>),
}

impl<'a, H: Harness> DatatestTestDesc<'a, H> {
    /// The descriptor can be rendered without a call that its owner rules out.
    pub open spec fn well_formed(self) -> bool {
        match self {
            DatatestTestDesc::Test(_) => true,
            DatatestTestDesc::FilesTest(files) => files.well_formed(),
            DatatestTestDesc::DataTest(data) => data.well_formed(),
            DatatestTestDesc::RegularTest(_) => true,
        }
    }
}

/// Anything that the runner takes as a test. The compiler passes the tests that it collects to the
/// runner in one slice; with a slice of trait objects, its own descriptors and those of this
/// library can stand side by side.
pub trait TestDescriptor<H: Harness> {
    /// The descriptor behind the trait object.
    spec fn datatest_desc(&self) -> DatatestTestDesc<'_, H>;

    fn as_datatest_desc(&self) -> (desc: DatatestTestDesc<'_, H>)
        ensures
            desc == self.datatest_desc(),
    ;
}

impl<H: Harness> TestDescriptor<H> for TestDescAndFn<H> {
    open spec fn datatest_desc(&self) -> DatatestTestDesc<'_, H> {
        DatatestTestDesc::Test(self)
    }

    fn as_datatest_desc(&self) -> (desc: DatatestTestDesc<'_, H>) {
        DatatestTestDesc::Test(self)
    }
}

impl<H: Harness> TestDescriptor<H> for FilesTestDesc<H> {
    open spec fn datatest_desc(&self) -> DatatestTestDesc<'_, H> {
        DatatestTestDesc::FilesTest(self)
    }

    fn as_datatest_desc(&self) -> (desc: DatatestTestDesc<'_, H>) {
        DatatestTestDesc::FilesTest(self)
    }
}

impl<H: Harness> TestDescriptor<H> for DataTestDesc<H> {
    open spec fn datatest_desc(&self) -> DatatestTestDesc<'_, H> {
        DatatestTestDesc::DataTest(self)
    }

    fn as_datatest_desc(&self) -> (desc: DatatestTestDesc<'_, H>) {
        DatatestTestDesc::DataTest(self)
    }
}

impl<H: Harness> TestDescriptor<H> for RegularTestDesc<H> {
    open spec fn datatest_desc(&self) -> DatatestTestDesc<'_, H> {
        DatatestTestDesc::RegularTest(self)
    }

    fn as_datatest_desc(&self) -> (desc: DatatestTestDesc<'_, H>) {
        DatatestTestDesc::RegularTest(self)
    }
}

} // verus!
