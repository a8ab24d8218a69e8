//! A coverage-generation pipeline around an instrumented build tool.
//!
//! The library models the pipeline's decisions: classifying the build tool's
//! structured progress stream, collecting the test executables it announces,
//! laying out a scoped workspace for raw profile shards, and assembling the
//! exact command lines of the merge and report steps.  Everything that touches
//! the operating system (spawning the recorded invocations, reading their
//! output, creating and removing the workspace on disk) is left to the thin
//! driver around the library, which hands plain values in and out.

pub mod buildstep;
pub mod errors;
pub mod json;
pub mod metadata;
pub mod opts;
pub mod pipeline;
pub mod report;
pub mod toolchain;
pub mod message;
pub mod invocation;
pub mod strutil;
pub mod workspace;
