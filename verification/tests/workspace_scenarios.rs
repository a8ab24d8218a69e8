use cargo_llvmcov::buildstep::BuildScan;
use cargo_llvmcov::opts::{report_mode, Opts, ReportMode, SubCommand};
use cargo_llvmcov::pipeline::{merge_profdata, run_test};
use cargo_llvmcov::report::llvm_cov_show;
use cargo_llvmcov::strutil::dec_str;
use cargo_llvmcov::workspace::Profenv;

#[test]
fn workspace_paths_are_salted_by_process_identity() {
    let profenv = Profenv::new("/base", 123);
    assert_eq!(profenv.profraw_dir(), "/base/profraw-123");
    assert_eq!(profenv.profdata(), "/base/default.profdata");
    assert_eq!(profenv.profraw(), "/base/profraw-123/%p.profraw");
    assert_eq!(profenv.profraw_glob(), "/base/profraw-123/*.profraw");
}

#[test]
fn release_removes_shards_and_profile() {
    let profenv = Profenv::new("/base", 123);
    let plan = profenv.release(false);
    assert_eq!(plan.remove_dir, Some("/base/profraw-123".to_string()));
    assert_eq!(plan.remove_file, Some("/base/default.profdata".to_string()));
}

#[test]
fn release_with_retention_removes_nothing() {
    let profenv = Profenv::new("/base", 123);
    let plan = profenv.release(true);
    assert_eq!(plan.remove_dir, None);
    assert_eq!(plan.remove_file, None);
}

#[test]
fn decimal_rendering_is_exact() {
    assert_eq!(dec_str(0), "0");
    assert_eq!(dec_str(9), "9");
    assert_eq!(dec_str(10), "10");
    assert_eq!(dec_str(1234), "1234");
    assert_eq!(dec_str(u64::MAX), "18446744073709551615");
}

#[test]
fn report_mode_precedence() {
    let opts = Opts {
        lcov: true,
        lcov_output: Some("x".to_string()),
        html: true,
        open: false,
        keep: false,
        verbose: 0,
    };
    assert!(matches!(report_mode(&opts), ReportMode::LcovDefault));

    let opts = Opts {
        lcov: false,
        lcov_output: Some("chosen.info".to_string()),
        html: true,
        open: false,
        keep: false,
        verbose: 0,
    };
    match report_mode(&opts) {
        ReportMode::LcovTo(p) => assert_eq!(p, "chosen.info"),
        other => panic!("expected the chosen LCOV file, got {:?}", other),
    }

    let opts = Opts {
        lcov: false,
        lcov_output: None,
        html: true,
        open: true,
        keep: false,
        verbose: 0,
    };
    assert!(matches!(report_mode(&opts), ReportMode::Html));

    let opts = Opts {
        lcov: false,
        lcov_output: None,
        html: false,
        open: false,
        keep: false,
        verbose: 2,
    };
    let SubCommand::Llvmcov(opts) = SubCommand::Llvmcov(opts);
    assert!(matches!(report_mode(&opts), ReportMode::Text));
}

#[test]
fn one_artifact_end_to_end() {
    let profenv = Profenv::new("/t", 1234);

    let mut scan = BuildScan::new();
    scan.step_line(
        r#"{"reason":"compiler-artifact","target":{"test":true},"profile":{"test":true},"executable":"/t/bin/test1"}"#,
    )
    .unwrap();
    scan.step_line(r#"{"reason":"build-finished","success":true}"#).unwrap();
    let executables = scan.finish(true).unwrap();
    assert_eq!(executables, vec!["/t/bin/test1".to_string()]);

    let run = run_test(&executables[0], &profenv);
    assert_eq!(run.log_line(), "CALL /t/bin/test1 --nocapture");

    let shards = vec!["/t/profraw-1234/1234.profraw".to_string()];
    let merge = merge_profdata("llvm-profdata", &profenv, &shards);
    assert!(merge.log_line().contains("1234.profraw"));
    assert_eq!(
        merge.log_line(),
        "CALL llvm-profdata merge -sparse /t/profraw-1234/1234.profraw -o /t/default.profdata"
    );

    let show = llvm_cov_show("llvm-cov", "rustfilt", &profenv, &executables, None, "ignore");
    let argv = show.argv();
    assert_eq!(argv[3], "/t/bin/test1");
    assert_eq!(argv.len(), 8);
    assert!(!argv.contains(&"-object".to_string()));
}
