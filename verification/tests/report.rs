use cargo_llvmcov::invocation::{ExitStatus, StdoutTarget};
use cargo_llvmcov::opts::ReportMode;
use cargo_llvmcov::report::{
    llvm_cov_export, llvm_cov_outcome, llvm_cov_show, report_command, to_obj_args,
};
use cargo_llvmcov::workspace::Profenv;

#[test]
fn test_to_obj_args() {
    let r = to_obj_args(&vec![]);
    assert_eq!(r, Vec::<String>::new());

    let v = vec!["a".to_string()];
    let r = to_obj_args(&v);
    assert_eq!(r.len(), 1);
    assert_eq!(r[0], v[0]);

    let v = vec!["a".to_string(), "b".to_string()];
    let r = to_obj_args(&v);
    assert_eq!(r.len(), 3);
    assert_eq!(r[0], v[0]);
    assert_eq!(r[1], "-object");
    assert_eq!(r[2], v[1]);
}

#[test]
fn obj_args_for_three_executables() {
    let v = vec!["a".to_string(), "b".to_string(), "c".to_string()];
    let r = to_obj_args(&v);
    assert_eq!(
        r,
        vec![
            "a".to_string(),
            "-object".to_string(),
            "b".to_string(),
            "-object".to_string(),
            "c".to_string(),
        ]
    );
}

#[test]
fn test_llvm_cov_show() {
    let profenv = Profenv::new("/tmp/scratch", 5);
    let c = llvm_cov_show(
        "llvm-cov",
        "rustfilt",
        &profenv,
        &vec!["exe".to_string()],
        None,
        "ignore",
    );
    assert_eq!(
        c.log_line(),
        format!("CALL llvm-cov show -Xdemangler=rustfilt exe -instr-profile={} -format=text -ignore-filename-regex=ignore -show-instantiations=false", "/tmp/scratch/default.profdata"));
}

#[test]
fn test_llvm_cov_show_html() {
    let profenv = Profenv::new("/tmp/scratch", 5);
    let c = llvm_cov_show(
        "llvm-cov",
        "rustfilt",
        &profenv,
        &vec!["exe".to_string()],
        Some(&"output".to_string()),
        "ignore",
    );
    assert_eq!(
        c.log_line(),
        format!("CALL llvm-cov show -Xdemangler=rustfilt exe -instr-profile={} -format=html -output-dir=output -ignore-filename-regex=ignore -show-instantiations=false", "/tmp/scratch/default.profdata"));
}

#[test]
fn test_llvm_cov_show_failed() {
    let r = llvm_cov_outcome(&ExitStatus(false)).unwrap_err();
    assert_eq!(&r.message(), "failed to run llvm-cov.");
}

#[test]
fn test_llvm_cov_export() {
    let profenv = Profenv::new("/tmp/scratch", 5);
    let c = llvm_cov_export(
        "llvm-cov",
        "rustfilt",
        &profenv,
        &vec!["exe".to_string()],
        "cov.info",
        "ignore",
    );
    assert_eq!(
        c.log_line(),
        format!("CALL llvm-cov export -Xdemangler=rustfilt exe -instr-profile={} -format=lcov -ignore-filename-regex=ignore -show-instantiations=false", "/tmp/scratch/default.profdata"));
    match c.stdout_target() {
        StdoutTarget::File(path) => assert_eq!(path, "cov.info"),
        other => panic!("expected a file redirection, got {:?}", other),
    }
}

#[test]
fn test_llvm_cov_export_failed() {
    let r = llvm_cov_outcome(&ExitStatus(false)).unwrap_err();
    assert_eq!(&r.message(), "failed to run llvm-cov.");
}

#[test]
fn default_lcov_report_filters_by_cargo_home_alone() {
    let profenv = Profenv::new("/tmp/scratch", 5);
    let c = report_command(
        ReportMode::LcovDefault,
        "llvm-cov",
        "rustfilt",
        &profenv,
        &vec!["exe".to_string()],
        "/proj/target/cov",
        "/home/u/.cargo",
        "/home/u/.cargo|/home/u/.rustup",
    );
    assert!(c
        .argv()
        .contains(&"-ignore-filename-regex=/home/u/.cargo".to_string()));
    match c.stdout_target() {
        StdoutTarget::File(path) => assert_eq!(path, "/proj/target/cov/cov.info"),
        other => panic!("expected a file redirection, got {:?}", other),
    }
}

#[test]
fn html_report_renders_under_the_target_directory() {
    let profenv = Profenv::new("/tmp/scratch", 5);
    let c = report_command(
        ReportMode::Html,
        "llvm-cov",
        "rustfilt",
        &profenv,
        &vec!["exe".to_string()],
        "/proj/target/cov",
        "/home/u/.cargo",
        "ignore",
    );
    assert!(c.argv().contains(&"-format=html".to_string()));
    assert!(c
        .argv()
        .contains(&"-output-dir=/proj/target/cov/html".to_string()));
}

#[test]
fn show_with_two_objects_marks_the_second() {
    let profenv = Profenv::new("/tmp/scratch", 5);
    let c = llvm_cov_show(
        "llvm-cov",
        "rustfilt",
        &profenv,
        &vec!["first".to_string(), "second".to_string()],
        None,
        "ignore",
    );
    let argv = c.argv();
    assert_eq!(argv[3], "first");
    assert_eq!(argv[4], "-object");
    assert_eq!(argv[5], "second");
}
