//! What the test harness understands: test descriptions, test functions and options.
use vstd::prelude::*;

verus! {

/// The kinds of values that a harness works with and that this library only passes on: test and
/// benchmark functions, and paths. The functions that tests are described with are called.
pub trait Harness: Sized {
    /// A plain test function.
    type TestFn: Copy;

    /// A plain benchmark function.
    type BenchFn: Copy;

    /// A test function that is called with a list of paths.
    type FilesTestFn: Copy;

    /// A benchmark function that is called with a list of paths.
    type FilesBenchFn: Copy;

    /// A test function that carries its own data.
    type DataTestFn;

    /// A benchmark function that carries its own data.
    type DataBenchFn;

    /// The path of a file.
    type Path;

    /// Tells for a path whether the test on it is to be ignored.
    type IgnoreFn: Fn(&Self::Path) -> bool;

    /// Lists the cases of a data test.
    type DescribeFn: Fn() -> Vec<
        DataTestCaseDesc<DataTestFn<Self::DataTestFn, Self::DataBenchFn>>,
    >;
}

/// The function of one case of a data test.
pub enum DataTestFn<T, B> {
    TestFn(T),
    BenchFn(B),
}

/// One case of a data test: what to run, its name if it has one, and where its data stands.
pub struct DataTestCaseDesc<T> {
    pub case: T,
    pub name: Option<String>,
    pub location: String,
}

/// Whether a test is expected to panic.
#[derive(Clone, Copy, Debug, PartialEq, Eq)]
pub enum ShouldPanic {
    No,
    Yes,
    YesWithMessage(&'static str),
}

/// The name of a test.
#[derive(Debug, PartialEq, Eq)]
pub enum TestName {
    StaticTestName(&'static str),
    DynTestName(String),
}

impl View for TestName {
    type V = Seq<char>;

    open spec fn view(&self) -> Seq<char> {
        match *self {
            TestName::StaticTestName(name) => name@,
            TestName::DynTestName(name) => name@,
        }
    }
}

/// Which type of test a description stands for.
#[derive(Clone, Copy, Debug, PartialEq, Eq)]
pub enum TestType {
    UnitTest,
    IntegrationTest,
    DocTest,
    Unknown,
    /// The type that the crate's layout gives to the tests of this source file.
    OfSource(&'static str),
}

/// The description of one test.
#[derive(Debug, PartialEq, Eq)]
pub struct TestDesc {
    pub name: TestName,
    pub ignore: bool,
    pub should_panic: ShouldPanic,
    pub allow_fail: bool,
    pub test_type: TestType,
}

impl Clone for TestDesc {
    fn clone(&self) -> (copy: TestDesc)
        ensures
            copy == *self,
    {
        let name = match &self.name {
            TestName::StaticTestName(name) => TestName::StaticTestName(*name),
            TestName::DynTestName(name) => TestName::DynTestName(name.clone()),
        };
        TestDesc {
            name,
            ignore: self.ignore,
            should_panic: self.should_panic,
            allow_fail: self.allow_fail,
            test_type: self.test_type,
        }
    }
}

/// A path that a test on files is called with.
pub enum TestPath<P> {
    /// The file that was found.
    Found(P),
    /// A path made from the path of the file that was found.
    Derived(String),
}

/// A test function with the data that it is to run on.
pub enum DynTestFn<H: Harness> {
    Files(H::FilesTestFn, Vec<TestPath<H::Path>>),
    Data(H::DataTestFn),
}

/// A benchmark function with the paths that it is to run on.
pub struct FilesBenchFn<H: Harness>(pub H::FilesBenchFn, pub Vec<TestPath<H::Path>>);

/// A benchmark function with the data that it is to run on.
pub enum DynBenchFn<H: Harness> {
    Files(FilesBenchFn<H>),
    Data(H::DataBenchFn),
}

/// What a test runs.
pub enum TestFn<H: Harness> {
    StaticTestFn(H::TestFn),
    StaticBenchFn(H::BenchFn),
    DynTestFn(DynTestFn<H>),
    DynBenchFn(DynBenchFn<H>),
}

impl<H: Harness> TestFn<H> {
    /// The function carries no data.
    pub open spec fn is_static(self) -> bool {
        self is StaticTestFn || self is StaticBenchFn
    }
}

/// A test: its description and what it runs.
pub struct TestDescAndFn<H: Harness> {
    pub desc: TestDesc,
    pub testfn: TestFn<H>,
}

/// Which tests to run: those whose name holds the filter, or is the filter if it is exact.
#[derive(Debug, PartialEq, Eq)]
pub struct TestOpts {
    pub filter: Option<String>,
    pub filter_exact: bool,
}

} // verus!
