//! The build step: the instrumented build invocation, and the incremental
//! scan of the machine-readable progress stream that collects the test
//! executables and applies the step's failure policy.

use vstd::prelude::*;
use crate::errors::CovError;
use crate::invocation::{Command, StdoutTarget};
use crate::message::{
    BuildMessage,
    artifact_exe,
    decode_build_message,
    is_build_failure,
    is_test_executable,
    message_matches,
    test_executable_path,
    well_formed_line,
};
use crate::workspace::Profenv;

verus! {

/// The executable paths collected after processing `msgs`, in stream order.
pub open spec fn collected(msgs: Seq<BuildMessage>) -> Seq<Seq<char>>
    decreases msgs.len(),
{
    if msgs.len() == 0 {
        Seq::empty()
    } else if is_test_executable(msgs.last()) {
        collected(msgs.drop_last()).push(artifact_exe(msgs.last()))
    } else {
        collected(msgs.drop_last())
    }
}

/// Whether any message of `msgs` reports a failed build.
pub open spec fn stream_failed(msgs: Seq<BuildMessage>) -> bool {
    exists|i: int| 0 <= i < msgs.len() && is_build_failure(msgs[i])
}

/// The build step's verdict over the decoded stream and the build
/// process's exit: a failure report or a non-success exit fails the step,
/// an empty collection is its own distinct failure, and otherwise the
/// collected executables are the result.
pub open spec fn build_step_result(msgs: Seq<BuildMessage>, exit_success: bool) -> Result<
    Seq<Seq<char>>,
    CovError,
> {
    if !exit_success || stream_failed(msgs) {
        Err(CovError::BuildFailed)
    } else if collected(msgs).len() == 0 {
        Err(CovError::NoExecutable)
    } else {
        Ok(collected(msgs))
    }
}

/// Extending a stream by one message extends the collection by that
/// message's executable exactly when it qualifies.
pub proof fn lemma_collected_push(s: Seq<BuildMessage>, m: BuildMessage)
    ensures
        is_test_executable(m) ==> collected(s.push(m)) == collected(s).push(artifact_exe(m)),
        !is_test_executable(m) ==> collected(s.push(m)) == collected(s),
{
    assert(s.push(m).drop_last() =~= s);
    assert(s.push(m).last() == m);
}

/// Extending a stream by one message reports failure exactly when the
/// stream already did or the message is a failure report.
pub proof fn lemma_stream_failed_push(s: Seq<BuildMessage>, m: BuildMessage)
    ensures
        stream_failed(s.push(m)) == (stream_failed(s) || is_build_failure(m)),
{
    if stream_failed(s) {
        let i = choose|i: int| 0 <= i < s.len() && is_build_failure(s[i]);
        assert(s.push(m)[i] == s[i]);
    }
    if is_build_failure(m) {
        assert(s.push(m)[s.len() as int] == m);
    }
    if stream_failed(s.push(m)) {
        let i = choose|i: int| 0 <= i < s.push(m).len() && is_build_failure(s.push(m)[i]);
        if i < s.len() {
            assert(s[i] == s.push(m)[i]);
        } else {
            assert(s.push(m)[i] == m);
        }
    }
}

/// The collection is exactly the qualifying artifact lines of the stream,
/// in stream order, each contributing its executable path: any single
/// false target-test flag, false profile-test flag or absent executable
/// excludes a line.
pub proof fn lemma_collected_are_the_qualifying(msgs: Seq<BuildMessage>)
    ensures
        collected(msgs) == msgs.filter(|m: BuildMessage| is_test_executable(m)).map_values(
            |m: BuildMessage| artifact_exe(m),
        ),
    decreases msgs.len(),
{
    reveal(Seq::filter);
    let pred = |m: BuildMessage| is_test_executable(m);
    let path = |m: BuildMessage| artifact_exe(m);
    if msgs.len() > 0 {
        lemma_collected_are_the_qualifying(msgs.drop_last());
        if pred(msgs.last()) {
            assert(msgs.filter(pred).map_values(path) =~= msgs.drop_last().filter(
                pred,
            ).map_values(path).push(path(msgs.last())));
        }
    } else {
        assert(msgs.filter(pred).map_values(path) =~= Seq::<Seq<char>>::empty());
    }
}

/// A stream with at least one qualifying artifact collects something.
pub proof fn lemma_some_qualifying_collects_some(msgs: Seq<BuildMessage>)
    requires
        exists|i: int| 0 <= i < msgs.len() && is_test_executable(#[trigger] msgs[i]),
    ensures
        collected(msgs).len() > 0,
    decreases msgs.len(),
{
    let i = choose|i: int| 0 <= i < msgs.len() && is_test_executable(#[trigger] msgs[i]);
    if i < msgs.len() - 1 {
        assert(msgs.drop_last()[i] == msgs[i]);
        lemma_some_qualifying_collects_some(msgs.drop_last());
    } else {
        assert(is_test_executable(msgs.last()));
    }
}

/// A fully successful stream — no failure report, a successful process
/// exit — with at least one qualifying artifact makes the build step
/// return exactly the executable paths of its qualifying artifact lines,
/// in stream order.
pub proof fn lemma_build_step_success(msgs: Seq<BuildMessage>)
    requires
        !stream_failed(msgs),
        exists|i: int| 0 <= i < msgs.len() && is_test_executable(#[trigger] msgs[i]),
    ensures
        build_step_result(msgs, true) == Ok::<Seq<Seq<char>>, CovError>(
            msgs.filter(|m: BuildMessage| is_test_executable(m)).map_values(
                |m: BuildMessage| artifact_exe(m),
            ),
        ),
{
    lemma_collected_are_the_qualifying(msgs);
    lemma_some_qualifying_collects_some(msgs);
}

/// A stream in which no message qualifies collects no executable.
pub proof fn lemma_no_qualifying_collects_none(msgs: Seq<BuildMessage>)
    requires
        forall|i: int| 0 <= i < msgs.len() ==> !is_test_executable(#[trigger] msgs[i]),
    ensures
        collected(msgs).len() == 0,
    decreases msgs.len(),
{
    if msgs.len() > 0 {
        assert(!is_test_executable(msgs[msgs.len() - 1]));
        assert forall|i: int|
            0 <= i < msgs.drop_last().len() implies !is_test_executable(
            #[trigger] msgs.drop_last()[i],
        ) by {
            assert(msgs.drop_last()[i] == msgs[i]);
        }
        lemma_no_qualifying_collects_none(msgs.drop_last());
    }
}

/// A stream with zero qualifying artifacts whose only build-finished
/// message is a final success report makes the build step fail with the
/// distinct no-executable error, never a generic success.
pub proof fn lemma_build_step_no_executable(msgs: Seq<BuildMessage>)
    requires
        msgs.len() > 0,
        msgs.last() matches BuildMessage::BuildFinished { success: true },
        forall|i: int| 0 <= i < msgs.len() - 1 ==> !(#[trigger] msgs[i] is BuildFinished),
        forall|i: int| 0 <= i < msgs.len() ==> !is_test_executable(#[trigger] msgs[i]),
    ensures
        build_step_result(msgs, true) == Err::<Seq<Seq<char>>, CovError>(CovError::NoExecutable),
{
    lemma_no_qualifying_collects_none(msgs);
    assert(!stream_failed(msgs)) by {
        assert forall|i: int| 0 <= i < msgs.len() implies !is_build_failure(
            #[trigger] msgs[i],
        ) by {
            if i == msgs.len() - 1 {
                assert(msgs[i] == msgs.last());
            }
        }
    }
}

/// A stream ending in a failure report, or a non-success process exit,
/// fails the build step with the build-failure error, regardless of how
/// many qualifying artifacts were seen before.
pub proof fn lemma_build_step_failure(msgs: Seq<BuildMessage>, exit_success: bool)
    requires
        !exit_success || (msgs.len() > 0 && is_build_failure(msgs.last())),
    ensures
        build_step_result(msgs, exit_success) == Err::<Seq<Seq<char>>, CovError>(
            CovError::BuildFailed,
        ),
{
    if exit_success {
        assert(is_build_failure(msgs[msgs.len() - 1]));
    }
}

/// The incremental scan of the progress stream: the executables collected
/// so far, in discovery order, and whether a failure was reported.
pub struct BuildScan {
    executables: Vec<String>,
    failed: bool,
    history: Ghost<Seq<BuildMessage>>,
}

impl BuildScan {
    /// The messages folded in so far.
    pub closed spec fn msgs(&self) -> Seq<BuildMessage> {
        self.history@
    }

    /// The executable paths collected so far.
    pub closed spec fn exes_view(&self) -> Seq<Seq<char>> {
        self.executables.deep_view()
    }

    /// The scan's state agrees with its stream.
    pub closed spec fn wf(&self) -> bool {
        &&& self.exes_view() == collected(self.history@)
        &&& self.failed == stream_failed(self.history@)
    }

    /// An empty scan, before any line arrived.
    pub fn new() -> (r: BuildScan)
        ensures
            r.wf(),
            r.msgs() == Seq::<BuildMessage>::empty(),
    {
        let r = BuildScan { executables: Vec::new(), failed: false, history: Ghost(Seq::empty()) };
        proof {
            assert(r.exes_view() =~= collected(r.history@));
        }
        r
    }

    /// Folds one decoded message in: a qualifying artifact's path is
    /// appended, a failure report is remembered.
    pub fn step(&mut self, m: BuildMessage)
        requires
            old(self).wf(),
        ensures
            final(self).wf(),
            final(self).msgs() == old(self).msgs().push(m),
    {
        let failure = match &m {
            BuildMessage::BuildFinished { success } => !*success,
            _ => false,
        };
        if failure {
            self.failed = true;
        }
        proof {
            lemma_collected_push(old(self).msgs(), m);
            lemma_stream_failed_push(old(self).msgs(), m);
        }
        match test_executable_path(m) {
            Some(p) => {
                self.executables.push(p);
                proof {
                    assert(self.exes_view() =~= collected(old(self).msgs().push(m)));
                }
            },
            None => {},
        }
        proof {
            self.history@ = old(self).msgs().push(m);
        }
    }

    /// Decodes one streamed line and folds it in: exactly the well-formed
    /// lines are accepted, and an accepted line extends the stream by the
    /// message its members assemble to.  A line that does not decode is a
    /// hard failure and leaves the scan unchanged.
    pub fn step_line(&mut self, line: &str) -> (r: Result<(), CovError>)
        requires
            old(self).wf(),
        ensures
            final(self).wf(),
            r is Ok <==> well_formed_line(line@),
            r is Ok ==> final(self).msgs().len() == old(self).msgs().len() + 1
                && final(self).msgs().drop_last() == old(self).msgs() && message_matches(
                line@,
                final(self).msgs().last(),
            ),
            r matches Err(e) ==> e matches CovError::Decode(_) && *final(self) == *old(self),
    {
        match decode_build_message(line) {
            Ok(m) => {
                self.step(m);
                proof {
                    assert(final(self).msgs() == old(self).msgs().push(m));
                    assert(final(self).msgs().drop_last() =~= old(self).msgs());
                }
                Ok(())
            },
            Err(e) => Err(e),
        }
    }

    /// Applies the failure policy once the stream has ended and the build
    /// process has exited: a reported failure or a non-success exit fails
    /// the step; a successful build that announced no test executable is
    /// not actionable and fails with its own distinct error; otherwise the
    /// collected executables, in discovery order, are the result.
    pub fn finish(self, exit_success: bool) -> (r: Result<Vec<String>, CovError>)
        requires
            self.wf(),
        ensures
            r is Ok <==> build_step_result(self.msgs(), exit_success) is Ok,
            r matches Ok(v) ==> build_step_result(self.msgs(), exit_success) == Ok::<
                Seq<Seq<char>>,
                CovError,
            >(v.deep_view()),
            r matches Err(e) ==> build_step_result(self.msgs(), exit_success) == Err::<
                Seq<Seq<char>>,
                CovError,
            >(e),
    {
        if !exit_success || self.failed {
            Err(CovError::BuildFailed)
        } else if self.executables.len() == 0 {
            proof {
                assert(collected(self.msgs()).len() == 0);
            }
            Err(CovError::NoExecutable)
        } else {
            Ok(self.executables)
        }
    }
}

/// The build invocation: JSON progress output, test compilation, a pinned
/// target directory, and environment that switches the experimental
/// instrumentation on and routes its raw output into the workspace's shard
/// pattern.  Standard output is piped so the stream can be consumed
/// incrementally while the build runs.
pub fn build_command(cargo: &str, target: &str, profenv: &Profenv) -> (c: Command)
    ensures
        c.wf(),
        c.args_view() =~= seq![
            cargo@,
            "build"@,
            "--message-format"@,
            "json"@,
            "--tests"@,
            "--target-dir"@,
            target@,
        ],
        c.envs_view() =~= seq![
            ("RUSTC_BOOTSTRAP"@, "1"@),
            ("RUSTFLAGS"@, "-Zinstrument-coverage"@),
            ("LLVM_PROFILE_FILE"@, profenv.profraw_view()),
        ],
        c.stdout_view() is Piped,
{
    let mut c = Command::new(cargo);
    c.arg("build");
    c.arg("--message-format");
    c.arg("json");
    c.arg("--tests");
    c.arg("--target-dir");
    c.arg(target);
    c.env("RUSTC_BOOTSTRAP", "1");
    proof {
        reveal_strlit("RUSTC_BOOTSTRAP");
        reveal_strlit("RUSTFLAGS");
        reveal_strlit("LLVM_PROFILE_FILE");
        assert(c.envs_view() =~= seq![("RUSTC_BOOTSTRAP"@, "1"@)]);
        assert forall|j: int| 0 <= j < c.envs_view().len() implies c.envs_view()[j].0
            != "RUSTFLAGS"@ by {
            assert(c.envs_view()[j].0 == "RUSTC_BOOTSTRAP"@);
        }
    }
    c.env("RUSTFLAGS", "-Zinstrument-coverage");
    proof {
        assert(c.envs_view() =~= seq![
            ("RUSTC_BOOTSTRAP"@, "1"@),
            ("RUSTFLAGS"@, "-Zinstrument-coverage"@),
        ]);
        assert forall|j: int| 0 <= j < c.envs_view().len() implies c.envs_view()[j].0
            != "LLVM_PROFILE_FILE"@ by {
            assert(c.envs_view()[j].0 == "RUSTC_BOOTSTRAP"@ || c.envs_view()[j].0
                == "RUSTFLAGS"@);
        }
    }
    c.env("LLVM_PROFILE_FILE", profenv.profraw().as_str());
    proof {
        assert(c.envs_view() =~= seq![
            ("RUSTC_BOOTSTRAP"@, "1"@),
            ("RUSTFLAGS"@, "-Zinstrument-coverage"@),
            ("LLVM_PROFILE_FILE"@, profenv.profraw_view()),
        ]);
    }
    c.stdout(StdoutTarget::Piped);
    c
}

} // verus!
