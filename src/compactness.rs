//! The compactness self-test that every module offers to the verification
//! harness.

use vstd::prelude::*;

verus! {

/// The failure reported when the error type's encoding is not compact.
pub const COMPACTNESS_FAILURE: &'static str = "error type is not the most compact possible";

/// The self-test generated for a module.
#[derive(Clone, Debug)]
pub enum SelfTest {
    /// The module declares no error type: nothing to check.
    NoOp,
    /// Asserts that the encoding of the named error type is compact.
    CheckCompactness { error_ident: String },
}

/// Whether the self-test passes, given the outcome of the compactness check.
pub open spec fn self_test_passes(t: SelfTest, is_compact: bool) -> bool {
    match t {
        SelfTest::NoOp => true,
        SelfTest::CheckCompactness { .. } => is_compact,
    }
}

impl SelfTest {
    /// Runs the self-test on the outcome of the compactness check of the
    /// error type.
    pub fn run(&self, is_compact: bool) -> (r: Result<(), String>)
        ensures
            r is Ok <==> self_test_passes(*self, is_compact),
            r matches Err(m) ==> m@ == COMPACTNESS_FAILURE@,
    {
        match self {
            SelfTest::NoOp => Ok(()),
            SelfTest::CheckCompactness { .. } => {
                if is_compact {
                    Ok(())
                } else {
                    Err(String::from_str(COMPACTNESS_FAILURE))
                }
            },
        }
    }
}

} // verus!
