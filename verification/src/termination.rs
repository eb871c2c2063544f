//! What a test function may return.
use vstd::prelude::*;

verus! {

/// A value that a test function may return, and that tells whether the test succeeded.
pub trait Termination {
    /// The test that returned this value succeeded.
    spec fn succeeded(&self) -> bool;

    fn is_success(&self) -> (success: bool)
        ensures
            success == self.succeeded(),
    ;
}

impl Termination for () {
    open spec fn succeeded(&self) -> bool {
        true
    }

    fn is_success(&self) -> (success: bool) {
        true
    }
}

impl<T, E> Termination for Result<T, E> {
    open spec fn succeeded(&self) -> bool {
        self is Ok
    }

    fn is_success(&self) -> (success: bool) {
        self.is_ok()
    }
}

/// Turns the value that a test function returned into the verdict on the test.
pub fn assert_test_result<T: Termination>(result: T) -> (verdict: Result<(), &'static str>)
    ensures
        match verdict {
            Ok(_) => result.succeeded(),
            Err(message) => !result.succeeded() && message@
                == "the test returned a termination value with a non-zero status code (255) which indicates a failure"@,
        },
{
    if result.is_success() {
        Ok(())
    } else {
        Err(
            "the test returned a termination value with a non-zero status code (255) which indicates a failure",
        )
    }
}

} // verus!
