//! The report step: assembling the coverage tool's object arguments and the
//! full `show` and `export` invocations across the three report modes.

use vstd::prelude::*;
use crate::errors::CovError;
use crate::invocation::{Command, ExitStatus, StdoutTarget};
use crate::opts::ReportMode;
use crate::strutil::concat;
use crate::workspace::Profenv;

verus! {

/// The object arguments declaring the executables that share one profile:
/// the first is the primary object and stands bare, every later one is an
/// auxiliary object preceded by the additional-object marker.
pub open spec fn obj_args(exes: Seq<Seq<char>>) -> Seq<Seq<char>>
    decreases exes.len(),
{
    if exes.len() == 0 {
        Seq::empty()
    } else if exes.len() == 1 {
        seq![exes[0]]
    } else {
        obj_args(exes.drop_last()) + seq!["-object"@, exes.last()]
    }
}

/// The shape of the object arguments: none for an empty list, one bare
/// argument for a single executable, and for longer lists the first bare
/// with every subsequent one preceded by the additional-object marker —
/// each executable `i >= 1` stands at the even position `2 i`, right after
/// its marker at the odd position `2 i - 1`.
pub proof fn lemma_obj_args_shape(exes: Seq<Seq<char>>)
    ensures
        exes.len() == 0 ==> obj_args(exes).len() == 0,
        exes.len() >= 1 ==> obj_args(exes).len() == 2 * exes.len() - 1,
        forall|k: int|
            0 <= k < obj_args(exes).len() && k % 2 == 1 ==> #[trigger] obj_args(exes)[k]
                == "-object"@,
        forall|k: int|
            0 <= k < obj_args(exes).len() && k % 2 == 0 ==> #[trigger] obj_args(exes)[k] == exes[k
                / 2],
    decreases exes.len(),
{
    if exes.len() >= 2 {
        lemma_obj_args_shape(exes.drop_last());
        let inner = obj_args(exes.drop_last());
        assert forall|k: int|
            0 <= k < obj_args(exes).len() && k % 2 == 1 implies #[trigger] obj_args(exes)[k]
            == "-object"@ by {
            if k < inner.len() {
                assert(inner[k] == "-object"@);
            }
        }
        assert forall|k: int|
            0 <= k < obj_args(exes).len() && k % 2 == 0 implies #[trigger] obj_args(exes)[k]
            == exes[k / 2] by {
            if k < inner.len() {
                assert(inner[k] == exes.drop_last()[k / 2]);
            }
        }
    }
}

/// The executables as the coverage tool's object arguments.
pub fn to_obj_args(executables: &Vec<String>) -> (r: Vec<String>)
    ensures
        r.deep_view() == obj_args(executables.deep_view()),
{
    let mut r: Vec<String> = Vec::new();
    let n = executables.len();
    let mut i: usize = 0;
    while i < n
        invariant
            i <= n,
            n == executables.len(),
            r.deep_view() == obj_args(executables.deep_view().take(i as int)),
        decreases n - i,
    {
        if i == 0 {
            r.push(executables[0].clone());
        } else {
            r.push("-object".to_owned());
            r.push(executables[i].clone());
        }
        proof {
            let all = executables.deep_view();
            assert(all.take(i + 1 as int).drop_last() =~= all.take(i as int));
            assert(all.take(i + 1 as int).last() == all[i as int]);
            assert(r.deep_view() =~= obj_args(all.take(i + 1 as int)));
        }
        i += 1;
    }
    proof {
        assert(executables.deep_view().take(n as int) =~= executables.deep_view());
    }
    r
}

/// The argument list of a `show` invocation: demangler binding, the object
/// arguments, the merged profile, the format picked by the presence of an
/// output directory, the exclusion filter, and instantiation detail
/// reporting switched off.
pub open spec fn show_args(
    llvm_cov: Seq<char>,
    rustfilt: Seq<char>,
    profdata: Seq<char>,
    exes: Seq<Seq<char>>,
    html_output: Option<Seq<char>>,
    ignore: Seq<char>,
) -> Seq<Seq<char>> {
    seq![llvm_cov, "show"@, "-Xdemangler="@ + rustfilt] + obj_args(exes) + seq![
        "-instr-profile="@ + profdata,
    ] + (match html_output {
        Some(dir) => seq!["-format=html"@, "-output-dir="@ + dir],
        None => seq!["-format=text"@],
    }) + seq!["-ignore-filename-regex="@ + ignore, "-show-instantiations=false"@]
}

/// The `show` invocation: plain text on the caller's standard output, or a
/// static HTML tree when an output directory is supplied; the format choice
/// is driven solely by that directory's presence.
pub fn llvm_cov_show(
    llvm_cov: &str,
    rustfilt: &str,
    profenv: &Profenv,
    executables: &Vec<String>,
    html_output: Option<&String>,
    ignore: &str,
) -> (c: Command)
    ensures
        c.wf(),
        c.args_view() == show_args(
            llvm_cov@,
            rustfilt@,
            profenv.profdata_view(),
            executables.deep_view(),
            html_output.deep_view(),
            ignore@,
        ),
        c.envs_view() =~= Seq::<(Seq<char>, Seq<char>)>::empty(),
        c.stdout_view() is Inherit,
{
    let mut c = Command::new(llvm_cov);
    c.arg("show");
    c.arg(concat("-Xdemangler=", rustfilt).as_str());
    c.args(&to_obj_args(executables));
    c.arg(concat("-instr-profile=", profenv.profdata().as_str()).as_str());
    match html_output {
        Some(dir) => {
            c.arg("-format=html");
            c.arg(concat("-output-dir=", dir.as_str()).as_str());
        },
        None => {
            c.arg("-format=text");
        },
    }
    c.arg(concat("-ignore-filename-regex=", ignore).as_str());
    c.arg("-show-instantiations=false");
    proof {
        assert(c.args_view() =~= show_args(
            llvm_cov@,
            rustfilt@,
            profenv.profdata_view(),
            executables.deep_view(),
            html_output.deep_view(),
            ignore@,
        ));
    }
    c
}

/// The argument list of an `export` invocation: as for `show`, with the
/// LCOV format fixed.
pub open spec fn export_args(
    llvm_cov: Seq<char>,
    rustfilt: Seq<char>,
    profdata: Seq<char>,
    exes: Seq<Seq<char>>,
    ignore: Seq<char>,
) -> Seq<Seq<char>> {
    seq![llvm_cov, "export"@, "-Xdemangler="@ + rustfilt] + obj_args(exes) + seq![
        "-instr-profile="@ + profdata,
        "-format=lcov"@,
        "-ignore-filename-regex="@ + ignore,
        "-show-instantiations=false"@,
    ]
}

/// The `export` invocation: always LCOV text, redirected into the caller's
/// file opened for create-or-truncate write.
pub fn llvm_cov_export(
    llvm_cov: &str,
    rustfilt: &str,
    profenv: &Profenv,
    executables: &Vec<String>,
    output: &str,
    ignore: &str,
) -> (c: Command)
    ensures
        c.wf(),
        c.args_view() == export_args(
            llvm_cov@,
            rustfilt@,
            profenv.profdata_view(),
            executables.deep_view(),
            ignore@,
        ),
        c.envs_view() =~= Seq::<(Seq<char>, Seq<char>)>::empty(),
        c.stdout_view() matches StdoutTarget::File(f) && f@ == output@,
{
    let mut c = Command::new(llvm_cov);
    c.arg("export");
    c.arg(concat("-Xdemangler=", rustfilt).as_str());
    c.args(&to_obj_args(executables));
    c.arg(concat("-instr-profile=", profenv.profdata().as_str()).as_str());
    c.arg("-format=lcov");
    c.arg(concat("-ignore-filename-regex=", ignore).as_str());
    c.arg("-show-instantiations=false");
    c.stdout(StdoutTarget::File(output.to_owned()));
    proof {
        assert(c.args_view() =~= export_args(
            llvm_cov@,
            rustfilt@,
            profenv.profdata_view(),
            executables.deep_view(),
            ignore@,
        ));
    }
    c
}

/// The report invocation for a resolved mode.  The LCOV modes export, into
/// the caller's file or into the default file under the target directory;
/// HTML renders under the target directory; text goes to standard output.
/// The default LCOV export filters by the build tool's home alone, the
/// other modes by the full exclusion pattern.
pub fn report_command(
    mode: ReportMode,
    llvm_cov: &str,
    rustfilt: &str,
    profenv: &Profenv,
    executables: &Vec<String>,
    target: &str,
    cargo_home: &str,
    ignore: &str,
) -> (c: Command)
    ensures
        c.wf(),
        mode is LcovDefault ==> c.args_view() == export_args(
            llvm_cov@,
            rustfilt@,
            profenv.profdata_view(),
            executables.deep_view(),
            cargo_home@,
        ) && (c.stdout_view() matches StdoutTarget::File(f) && f@ == target@ + "/"@
            + "cov.info"@),
        mode matches ReportMode::LcovTo(p) ==> c.args_view() == export_args(
            llvm_cov@,
            rustfilt@,
            profenv.profdata_view(),
            executables.deep_view(),
            ignore@,
        ) && (c.stdout_view() matches StdoutTarget::File(f) && f@ == p@),
        mode is Html ==> c.args_view() == show_args(
            llvm_cov@,
            rustfilt@,
            profenv.profdata_view(),
            executables.deep_view(),
            Some(target@ + "/"@ + "html"@),
            ignore@,
        ) && c.stdout_view() is Inherit,
        mode is Text ==> c.args_view() == show_args(
            llvm_cov@,
            rustfilt@,
            profenv.profdata_view(),
            executables.deep_view(),
            None,
            ignore@,
        ) && c.stdout_view() is Inherit,
{
    match mode {
        ReportMode::LcovDefault => llvm_cov_export(
            llvm_cov,
            rustfilt,
            profenv,
            executables,
            crate::strutil::path_join(target, "cov.info").as_str(),
            cargo_home,
        ),
        ReportMode::LcovTo(path) => llvm_cov_export(
            llvm_cov,
            rustfilt,
            profenv,
            executables,
            path.as_str(),
            ignore,
        ),
        ReportMode::Html => llvm_cov_show(
            llvm_cov,
            rustfilt,
            profenv,
            executables,
            Some(&crate::strutil::path_join(target, "html")),
            ignore,
        ),
        ReportMode::Text => llvm_cov_show(llvm_cov, rustfilt, profenv, executables, None, ignore),
    }
}

/// The failure policy after a report invocation ran: a non-success exit is
/// a hard failure named after the coverage tool.
pub fn llvm_cov_outcome(status: &ExitStatus) -> (r: Result<(), CovError>)
    ensures
        r is Ok <==> status.0,
        !status.0 ==> (r matches Err(e) && e is CovFailed),
{
    if status.success() {
        Ok(())
    } else {
        Err(CovError::CovFailed)
    }
}

} // verus!
