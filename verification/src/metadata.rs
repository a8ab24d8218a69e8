//! The metadata query: the single-shot invocation that locates the build
//! tool's target directory, and the decoding of its captured output.

use vstd::prelude::*;
use crate::errors::CovError;
use crate::invocation::Command;
use crate::json;

verus! {

/// The target directory named by a metadata document, if the document
/// decodes; a function of the document's bytes alone.
pub uninterp spec fn target_dir_of(out: Seq<u8>) -> Option<Seq<char>>;

/// The metadata query invocation; its output is small and bounded, so the
/// driver runs it to completion and captures the output whole.
pub fn metadata_command(cargo: &str) -> (c: Command)
    ensures
        c.wf(),
        c.args_view() =~= seq![cargo@, "metadata"@],
        c.envs_view() =~= Seq::<(Seq<char>, Seq<char>)>::empty(),
        c.stdout_view() is Inherit,
{
    let mut c = Command::new(cargo);
    c.arg("metadata");
    c
}

/// Relies on serde_json::from_slice over the metadata document's shape
/// (cargo_metadata::Metadata): decodes the document and yields its target
/// directory, a function of the bytes alone.
#[verifier::external_body]
fn decode_target_directory(out: &[u8]) -> (r: Result<String, serde_json::Error>)
    ensures
        r is Ok <==> target_dir_of(out@) is Some,
        r matches Ok(p) ==> target_dir_of(out@) == Some(p@),
{
    serde_json::from_slice::<cargo_metadata::Metadata>(out).map(|m| m.target_directory.into_string())
}

/// The target directory read from the metadata query's captured output; a
/// document without one (or that does not decode) is a decode failure.
pub fn target_dir(metadata_output: &[u8]) -> (r: Result<String, CovError>)
    ensures
        r is Ok <==> target_dir_of(metadata_output@) is Some,
        r matches Ok(p) ==> target_dir_of(metadata_output@) == Some(p@),
        r matches Err(e) ==> e matches CovError::Decode(_),
{
    match decode_target_directory(metadata_output) {
        Ok(p) => Ok(p),
        Err(e) => Err(CovError::Decode(json::json_error_message(&e))),
    }
}

} // verus!
