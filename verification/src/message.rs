//! The build tool's machine-readable progress messages: a closed set of
//! variants told apart by the `reason` discriminator of each streamed JSON
//! line, and the classification of artifacts as test executables.

use vstd::prelude::*;
use crate::errors::CovError;
use crate::json;
use crate::strutil::str_eq;

verus! {

/// The target a compiler artifact was built from.
#[derive(Debug, Clone, Copy, PartialEq, Eq, Structural)]
pub struct BuildTarget {
    pub test: bool,
}

/// The profile a compiler artifact was built under.
#[derive(Debug, Clone, Copy, PartialEq, Eq, Structural)]
pub struct BuildProfile {
    pub test: bool,
}

/// One decoded line of the build tool's progress stream.  Exactly one
/// variant is active per line; an unknown discriminator is a decode error,
/// never a silently ignored default.
#[derive(Debug)]
pub enum BuildMessage {
    /// A diagnostic; no payload is needed.
    CompilerMessage,
    /// A produced artifact, with the triple that classification reads.
    CompilerArtifact { target: BuildTarget, profile: BuildProfile, executable: Option<String> },
    /// A build script ran; no payload is needed.
    BuildScriptExecuted,
    /// The stream's final message, reporting overall success.
    BuildFinished { success: bool },
}

/// Whether a message announces a test executable: an artifact whose target
/// is a test target, whose profile is a test profile, and which carries an
/// executable path.
pub open spec fn is_test_executable(m: BuildMessage) -> bool {
    &&& m matches BuildMessage::CompilerArtifact { target, profile, executable }
    &&& target.test
    &&& profile.test
    &&& executable is Some
}

/// The executable path announced by a qualifying artifact message.
pub open spec fn artifact_exe(m: BuildMessage) -> Seq<char> {
    match m {
        BuildMessage::CompilerArtifact { executable: Some(p), .. } => p@,
        _ => Seq::empty(),
    }
}

/// Whether a message reports a failed build.
pub open spec fn is_build_failure(m: BuildMessage) -> bool {
    m matches BuildMessage::BuildFinished { success: false }
}

/// Classification is deterministic and exact: an artifact message counts as
/// a test executable iff its target-test flag, its profile-test flag, and
/// the presence of an executable path hold at once; any single false or
/// absent one excludes it.
pub proof fn lemma_artifact_classification(
    target: BuildTarget,
    profile: BuildProfile,
    executable: Option<String>,
)
    ensures
        is_test_executable(BuildMessage::CompilerArtifact { target, profile, executable })
            <==> (target.test && profile.test && executable is Some),
{
}

/// The executable path of a qualifying test artifact, if `m` is one.
pub fn test_executable_path(m: BuildMessage) -> (r: Option<String>)
    ensures
        r is Some <==> is_test_executable(m),
        is_test_executable(m) ==> (r matches Some(p) && p@ == artifact_exe(m)),
{
    match m {
        BuildMessage::CompilerArtifact {
            target: BuildTarget { test: true },
            profile: BuildProfile { test: true },
            executable: Some(exe),
        } => Some(exe),
        _ => None,
    }
}

/// What equality of two decoded messages means: same variant, and payloads
/// that hold the same values.
pub open spec fn message_eq(a: &BuildMessage, b: &BuildMessage) -> bool {
    match (a, b) {
        (BuildMessage::CompilerMessage, BuildMessage::CompilerMessage) => true,
        (
            BuildMessage::CompilerArtifact { target: t1, profile: p1, executable: e1 },
            BuildMessage::CompilerArtifact { target: t2, profile: p2, executable: e2 },
        ) => t1 == t2 && p1 == p2 && e1.deep_view() == e2.deep_view(),
        (BuildMessage::BuildScriptExecuted, BuildMessage::BuildScriptExecuted) => true,
        (
            BuildMessage::BuildFinished { success: s1 },
            BuildMessage::BuildFinished { success: s2 },
        ) => s1 == s2,
        _ => false,
    }
}

impl PartialEq for BuildMessage {
    fn eq(&self, other: &BuildMessage) -> (r: bool) {
        match (self, other) {
            (BuildMessage::CompilerMessage, BuildMessage::CompilerMessage) => true,
            (
                BuildMessage::CompilerArtifact { target: t1, profile: p1, executable: e1 },
                BuildMessage::CompilerArtifact { target: t2, profile: p2, executable: e2 },
            ) => {
                let exe_eq = match (e1, e2) {
                    (None, None) => true,
                    (Some(x), Some(y)) => str_eq(x.as_str(), y.as_str()),
                    _ => false,
                };
                t1 == t2 && p1 == p2 && exe_eq
            },
            (BuildMessage::BuildScriptExecuted, BuildMessage::BuildScriptExecuted) => true,
            (
                BuildMessage::BuildFinished { success: s1 },
                BuildMessage::BuildFinished { success: s2 },
            ) => s1 == s2,
            _ => false,
        }
    }
}

impl vstd::std_specs::cmp::PartialEqSpecImpl for BuildMessage {
    open spec fn obeys_eq_spec() -> bool {
        true
    }

    open spec fn eq_spec(&self, other: &BuildMessage) -> bool {
        message_eq(self, other)
    }
}

/// The error for a line whose JSON parses but whose shape is not a build
/// message.
fn shape_error() -> (r: CovError)
    ensures
        r matches CovError::Decode(_),
{
    CovError::Decode("malformed build message.".to_owned())
}

/// Whether `line` is a well-formed build-progress line: it parses as one
/// JSON document whose `reason` member names a known variant, and the
/// members that variant needs are present and of the right kind.
pub open spec fn well_formed_line(line: Seq<char>) -> bool {
    &&& json::json_doc_ok(line)
    &&& match json::str_member_of(line, "reason"@) {
        Some(reason) => {
            ||| reason == "compiler-message"@
            ||| (reason == "compiler-artifact"@ && json::nested_bool_of(line, "target"@, "test"@)
                is Some && json::nested_bool_of(line, "profile"@, "test"@) is Some
                && json::opt_str_member_of(line, "executable"@) is Some)
            ||| reason == "build-script-executed"@
            ||| (reason == "build-finished"@ && json::bool_member_of(line, "success"@) is Some)
        },
        None => false,
    }
}

/// Whether `m` is the message that `line` decodes to: the line's `reason`
/// member names `m`'s variant, and `m`'s payload holds exactly the line's
/// named members.
pub open spec fn message_matches(line: Seq<char>, m: BuildMessage) -> bool {
    match m {
        BuildMessage::CompilerMessage => json::str_member_of(line, "reason"@) == Some(
            "compiler-message"@,
        ),
        BuildMessage::CompilerArtifact { target, profile, executable } => {
            &&& json::str_member_of(line, "reason"@) == Some("compiler-artifact"@)
            &&& json::nested_bool_of(line, "target"@, "test"@) == Some(target.test)
            &&& json::nested_bool_of(line, "profile"@, "test"@) == Some(profile.test)
            &&& json::opt_str_member_of(line, "executable"@) == Some(executable.deep_view())
        },
        BuildMessage::BuildScriptExecuted => json::str_member_of(line, "reason"@) == Some(
            "build-script-executed"@,
        ),
        BuildMessage::BuildFinished { success } => {
            &&& json::str_member_of(line, "reason"@) == Some("build-finished"@)
            &&& json::bool_member_of(line, "success"@) == Some(success)
        },
    }
}

/// The four discriminator values name four different variants.
proof fn lemma_reasons_distinct()
    ensures
        "compiler-message"@ != "compiler-artifact"@,
        "compiler-message"@ != "build-script-executed"@,
        "compiler-message"@ != "build-finished"@,
        "compiler-artifact"@ != "build-script-executed"@,
        "compiler-artifact"@ != "build-finished"@,
        "build-script-executed"@ != "build-finished"@,
{
    reveal_strlit("compiler-message");
    reveal_strlit("compiler-artifact");
    reveal_strlit("build-script-executed");
    reveal_strlit("build-finished");
    assert("compiler-message"@.len() == 16);
    assert("compiler-artifact"@.len() == 17);
    assert("build-script-executed"@.len() == 21);
    assert("build-finished"@.len() == 14);
}

/// Decodes one line of the progress stream.  The `reason` member picks the
/// variant; a line that does not parse, lacks the members a variant needs,
/// or names an unknown discriminator is a hard decode error, and a line
/// that decodes yields exactly the message assembled from its members.
pub fn decode_build_message(line: &str) -> (r: Result<BuildMessage, CovError>)
    ensures
        r is Ok <==> well_formed_line(line@),
        r matches Ok(m) ==> message_matches(line@, m),
        r matches Err(e) ==> e matches CovError::Decode(_),
{
    proof {
        lemma_reasons_distinct();
    }
    match json::check_json(line) {
        Ok(_) => {},
        Err(msg) => {
            return Err(CovError::Decode(msg));
        },
    }
    let reason = match json::str_member(line, "reason") {
        Some(r) => r,
        None => {
            return Err(shape_error());
        },
    };
    if str_eq(reason.as_str(), "compiler-message") {
        Ok(BuildMessage::CompilerMessage)
    } else if str_eq(reason.as_str(), "compiler-artifact") {
        let target_test = match json::nested_bool(line, "target", "test") {
            Some(b) => b,
            None => {
                return Err(shape_error());
            },
        };
        let profile_test = match json::nested_bool(line, "profile", "test") {
            Some(b) => b,
            None => {
                return Err(shape_error());
            },
        };
        let executable: Option<String> = match json::opt_str_member(line, "executable") {
            Some(e) => e,
            None => {
                return Err(shape_error());
            },
        };
        Ok(
            BuildMessage::CompilerArtifact {
                target: BuildTarget { test: target_test },
                profile: BuildProfile { test: profile_test },
                executable,
            },
        )
    } else if str_eq(reason.as_str(), "build-script-executed") {
        Ok(BuildMessage::BuildScriptExecuted)
    } else if str_eq(reason.as_str(), "build-finished") {
        match json::bool_member(line, "success") {
            Some(success) => Ok(BuildMessage::BuildFinished { success }),
            None => Err(shape_error()),
        }
    } else {
        Err(shape_error())
    }
}

} // verus!
