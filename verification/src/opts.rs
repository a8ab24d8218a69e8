//! The user-facing options and the report-mode selection they drive.  The
//! driver's argument parser fills `Opts`; the mutually exclusive output
//! selections resolve to one `ReportMode` here.

use vstd::prelude::*;

verus! {

/// The options of the coverage subcommand.
#[derive(Debug)]
pub struct Opts {
    /// Render LCOV text into the default file under the target directory.
    pub lcov: bool,
    /// Render LCOV text into this file instead.
    pub lcov_output: Option<String>,
    /// Render a static HTML tree under the target directory.
    pub html: bool,
    /// Open the rendered HTML report afterwards.
    pub open: bool,
    /// Retain the workspace's scratch files instead of releasing them.
    pub keep: bool,
    /// How talkative the logging is.
    pub verbose: usize,
}

/// The tool's one subcommand, wrapping its options.
#[derive(Debug)]
pub enum SubCommand {
    Llvmcov(Opts),
}

/// Which report the pipeline renders.
#[derive(Debug)]
pub enum ReportMode {
    /// LCOV text into the default file under the target directory.
    LcovDefault,
    /// LCOV text into the given file.
    LcovTo(String),
    /// A static HTML tree under the target directory.
    Html,
    /// Plain text on standard output.
    Text,
}

/// Resolves the mutually exclusive output selections, in their declared
/// precedence: LCOV to the default path, LCOV to a chosen path, HTML, and
/// plain text as the default.
pub fn report_mode(opts: &Opts) -> (r: ReportMode)
    ensures
        opts.lcov ==> r is LcovDefault,
        !opts.lcov && opts.lcov_output is Some ==> (r matches ReportMode::LcovTo(p)
            && Some(p@) == opts.lcov_output.deep_view()),
        !opts.lcov && opts.lcov_output is None && opts.html ==> r is Html,
        !opts.lcov && opts.lcov_output is None && !opts.html ==> r is Text,
{
    if opts.lcov {
        ReportMode::LcovDefault
    } else {
        match &opts.lcov_output {
            Some(p) => ReportMode::LcovTo(p.clone()),
            None => {
                if opts.html {
                    ReportMode::Html
                } else {
                    ReportMode::Text
                }
            },
        }
    }
}

} // verus!
