//! Why a test descriptor could not be turned into tests.
use vstd::prelude::*;

verus! {

/// A descriptor that the runner refuses, with what the report needs to say about it.
#[derive(Debug)]
pub enum RenderError {
    /// The pattern of a files test is not a regular expression.
    InvalidPattern { pattern: String },
    /// A file was found outside the directory it was searched in.
    OutsideRoot { root: String, path: String },
    /// No file matched: most likely a typo in the pattern.
    NoTestCases { test: String, root: String, pattern: String },
    /// A test handed over by the compiler does not hold a static function.
    NotStatic,
}

/// What a [`RenderError`] says, over mathematical strings.
pub enum RenderErrorView {
    InvalidPattern { pattern: Seq<char> },
    OutsideRoot { root: Seq<char>, path: Seq<char> },
    NoTestCases { test: Seq<char>, root: Seq<char>, pattern: Seq<char> },
    NotStatic,
}

impl View for RenderError {
    type V = RenderErrorView;

    open spec fn view(&self) -> RenderErrorView {
        match *self {
            RenderError::InvalidPattern { pattern } => RenderErrorView::InvalidPattern {
                pattern: pattern@,
            },
            RenderError::OutsideRoot { root, path } => RenderErrorView::OutsideRoot {
                root: root@,
                path: path@,
            },
            RenderError::NoTestCases { test, root, pattern } => RenderErrorView::NoTestCases {
                test: test@,
                root: root@,
                pattern: pattern@,
            },
            RenderError::NotStatic => RenderErrorView::NotStatic,
        }
    }
}

impl RenderErrorView {
    /// The text that reports the error.
    pub open spec fn message(self) -> Seq<char> {
        match self {
            RenderErrorView::InvalidPattern { pattern } => "invalid regular expression: '"@ + pattern
                + "'"@,
            RenderErrorView::OutsideRoot { root, path } => "failed to strip prefix '"@ + root
                + "' from path '"@ + path + "'"@,
            RenderErrorView::NoTestCases { test, root, pattern } => "no test cases found for test '"@
                + test + "'. Scanned directory: '"@ + root + "' with pattern '"@ + pattern + "'"@,
            RenderErrorView::NotStatic => "not implemented: only static functions are supported"@,
        }
    }
}

impl RenderError {
    /// The text that reports the error.
    pub fn message(&self) -> (text: String)
        ensures
            text@ == self@.message(),
    {
        match self {
            RenderError::InvalidPattern { pattern } => {
                "invalid regular expression: '".to_string().concat(pattern.as_str()).concat("'")
            },
            RenderError::OutsideRoot { root, path } => {
                "failed to strip prefix '".to_string().concat(root.as_str()).concat(
                    "' from path '",
                ).concat(path.as_str()).concat("'")
            },
            RenderError::NoTestCases { test, root, pattern } => {
                "no test cases found for test '".to_string().concat(test.as_str()).concat(
                    "'. Scanned directory: '",
                ).concat(root.as_str()).concat("' with pattern '").concat(pattern.as_str()).concat(
                    "'",
                )
            },
            RenderError::NotStatic => {
                "not implemented: only static functions are supported".to_string()
            },
        }
    }
}

} // verus!
