//! The pipeline's failure taxonomy.  Every stage that can fail has a distinct
//! variant with a distinct human-readable message; decoding failures carry the
//! decoder's own message.

use vstd::prelude::*;

verus! {

/// Why a pipeline stage stopped.
#[derive(Debug)]
pub enum CovError {
    /// The build tool exited unsuccessfully or reported a failed build.
    BuildFailed,
    /// The build succeeded but announced no test executable.
    NoExecutable,
    /// A test executable exited unsuccessfully.
    TestFailed,
    /// The profile-merge tool exited unsuccessfully.
    MergeFailed,
    /// The coverage tool exited unsuccessfully.
    CovFailed,
    /// A build-progress line or a metadata document did not decode.
    Decode(String),
}

impl CovError {
    /// The message printed when the pipeline stops with this error.
    pub fn message(&self) -> (r: String)
        ensures
            self is BuildFailed ==> r@ == "failed to run cargo build."@,
            self is NoExecutable ==> r@ == "no executable found."@,
            self is TestFailed ==> r@ == "failed to run executable."@,
            self is MergeFailed ==> r@ == "failed to run llvm-profdata."@,
            self is CovFailed ==> r@ == "failed to run llvm-cov."@,
            self matches CovError::Decode(m) ==> r@ == m@,
    {
        match self {
            CovError::BuildFailed => "failed to run cargo build.".to_owned(),
            CovError::NoExecutable => "no executable found.".to_owned(),
            CovError::TestFailed => "failed to run executable.".to_owned(),
            CovError::MergeFailed => "failed to run llvm-profdata.".to_owned(),
            CovError::CovFailed => "failed to run llvm-cov.".to_owned(),
            CovError::Decode(m) => m.clone(),
        }
    }
}

} // verus!
