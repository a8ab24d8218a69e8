//! The test-execution and profile-merge steps: the exact invocations they
//! issue, and the failure policy applied to each exit status.

use vstd::prelude::*;
use crate::errors::CovError;
use crate::invocation::{Command, ExitStatus};
use crate::workspace::Profenv;

verus! {

/// The invocation of one discovered test executable: unsuppressed test
/// output, and the profiling variable bound to the workspace's shard
/// pattern so the run writes its shard there.
pub fn run_test(prog: &str, profenv: &Profenv) -> (c: Command)
    ensures
        c.wf(),
        c.args_view() =~= seq![prog@, "--nocapture"@],
        c.envs_view() =~= seq![("LLVM_PROFILE_FILE"@, profenv.profraw_view())],
        c.stdout_view() is Inherit,
{
    let mut c = Command::new(prog);
    c.arg("--nocapture");
    c.env("LLVM_PROFILE_FILE", profenv.profraw().as_str());
    proof {
        assert(c.envs_view() =~= seq![("LLVM_PROFILE_FILE"@, profenv.profraw_view())]);
    }
    c
}

/// The failure policy after one test executable ran: any non-success exit
/// aborts the whole pipeline at once; coverage from a failing suite is not
/// reported.
pub fn run_test_outcome(status: &ExitStatus) -> (r: Result<(), CovError>)
    ensures
        r is Ok <==> status.0,
        !status.0 ==> (r matches Err(e) && e is TestFailed),
{
    if status.success() {
        Ok(())
    } else {
        Err(CovError::TestFailed)
    }
}

/// The merge invocation: sparse-format merging of exactly the shard files
/// currently present, order kept, into the merged profile named once by
/// `-o`.  An empty shard set is passed through without special-casing.
pub fn merge_profdata(llvm_profdata: &str, profenv: &Profenv, profraw_files: &Vec<String>) -> (c:
    Command)
    ensures
        c.wf(),
        c.args_view() =~= seq![llvm_profdata@, "merge"@, "-sparse"@] + profraw_files.deep_view()
            + seq!["-o"@, profenv.profdata_view()],
        c.envs_view() =~= Seq::<(Seq<char>, Seq<char>)>::empty(),
        c.stdout_view() is Inherit,
{
    let mut c = Command::new(llvm_profdata);
    c.arg("merge");
    c.arg("-sparse");
    c.args(profraw_files);
    c.arg("-o");
    c.arg(profenv.profdata().as_str());
    proof {
        assert(c.args_view() =~= seq![llvm_profdata@, "merge"@, "-sparse"@]
            + profraw_files.deep_view() + seq!["-o"@, profenv.profdata_view()]);
    }
    c
}

/// The failure policy after the merge ran: a non-success exit is a hard
/// failure.
pub fn merge_outcome(status: &ExitStatus) -> (r: Result<(), CovError>)
    ensures
        r is Ok <==> status.0,
        !status.0 ==> (r matches Err(e) && e is MergeFailed),
{
    if status.success() {
        Ok(())
    } else {
        Err(CovError::MergeFailed)
    }
}

} // verus!
