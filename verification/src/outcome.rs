//! How one run of the build tool ended.

use vstd::prelude::*;

verus! {

/// The result of one run: it passed, or it failed with the exit code the
/// process left (none where it left no code, as when a signal ended it).
#[derive(Copy, Clone, Debug, PartialEq, Eq)]
pub enum TestOutcome {
    Pass,
    Fail(Option<i32>),
}

impl TestOutcome {
    /// The outcome that belongs to a finished process.
    pub open spec fn of_exit(success: bool, code: Option<i32>) -> TestOutcome {
        if success {
            TestOutcome::Pass
        } else {
            TestOutcome::Fail(code)
        }
    }

    /// Classifies a finished process: a pass exactly where it reported
    /// success, else a failure that carries its exit code unchanged.
    pub fn from_exit(success: bool, code: Option<i32>) -> (outcome: TestOutcome)
        ensures
            outcome == Self::of_exit(success, code),
            outcome is Pass <==> success,
            !success ==> outcome == TestOutcome::Fail(code),
    {
        if success {
            TestOutcome::Pass
        } else {
            TestOutcome::Fail(code)
        }
    }
}

} // verus!
