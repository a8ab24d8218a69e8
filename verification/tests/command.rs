use cargo_llvmcov::invocation::{Command, ExitStatus, StdoutTarget};

#[test]
fn test_command() {
    let mut c = Command::new("cargo");
    c.args(&vec!["--version".to_string()]);
    c.env("RUST_BACKTRACE", "1");
    c.stdout(StdoutTarget::Null);

    assert_eq!(c.log_line(), "CALL cargo --version");
    assert_eq!(c.program(), "cargo");
    assert_eq!(c.argv(), &vec!["cargo".to_string(), "--version".to_string()]);
    assert_eq!(
        c.env_pairs(),
        &vec![("RUST_BACKTRACE".to_string(), "1".to_string())]
    );
    assert!(matches!(c.stdout_target(), StdoutTarget::Null));
}

#[test]
fn command_env_overrides_existing_key() {
    let mut c = Command::new("prog");
    c.env("A", "1");
    c.env("B", "2");
    c.env("A", "3");
    assert_eq!(
        c.env_pairs(),
        &vec![
            ("A".to_string(), "3".to_string()),
            ("B".to_string(), "2".to_string())
        ]
    );
}

#[test]
fn command_log_line_bare_program() {
    let c = Command::new("prog");
    assert_eq!(c.log_line(), "CALL prog");
}

#[test]
fn exit_status_reports_success_flag() {
    assert!(ExitStatus(true).success());
    assert!(!ExitStatus(false).success());
}
