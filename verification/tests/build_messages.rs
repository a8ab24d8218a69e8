use cargo_llvmcov::message::{decode_build_message, BuildMessage, BuildProfile, BuildTarget};

#[test]
fn test_build_message() {
    let m = r#"{"reason":"compiler-message","package_id":"cargo-llvmcov 0.1.0 (path+file:///home/ysk/work/cargo-llvmcov)","target":{"kind":["bin"],"crate_types":["bin"],"name":"cargo-llvmcov","src_path":"/home/ysk/work/cargo-llvmcov/src/main.rs","edition":"2018","doctest":false,"test":true},"message":{"rendered":"warning: unused variable: `a`\n  --> src/main.rs:50:13\n   |\n50 |         let a = 1;\n   |             ^ help: if this is intentional, prefix it with an underscore: `_a`\n   |\n   = note: `#[warn(unused_variables)]` on by default\n\n","children":[{"children":[],"code":null,"level":"note","message":"`#[warn(unused_variables)]` on by default","rendered":null,"spans":[]},{"children":[],"code":null,"level":"help","message":"if this is intentional, prefix it with an underscore","rendered":null,"spans":[{"byte_end":1044,"byte_start":1043,"column_end":14,"column_start":13,"expansion":null,"file_name":"src/main.rs","is_primary":true,"label":null,"line_end":50,"line_start":50,"suggested_replacement":"_a","suggestion_applicability":"MachineApplicable","text":[{"highlight_end":14,"highlight_start":13,"text":"        let a = 1;"}]}]}],"code":{"code":"unused_variables","explanation":null},"level":"warning","message":"unused variable: `a`","spans":[{"byte_end":1044,"byte_start":1043,"column_end":14,"column_start":13,"expansion":null,"file_name":"src/main.rs","is_primary":true,"label":null,"line_end":50,"line_start":50,"suggested_replacement":null,"suggestion_applicability":null,"text":[{"highlight_end":14,"highlight_start":13,"text":"        let a = 1;"}]}]}}"#;
    let m = decode_build_message(m).unwrap();
    assert_eq!(BuildMessage::CompilerMessage, m);

    let m = r#"{"reason":"compiler-artifact","package_id":"cargo-llvmcov 0.1.0 (path+file:///home/ysk/work/cargo-llvmcov)","target":{"kind":["bin"],"crate_types":["bin"],"name":"cargo-llvmcov","src_path":"/home/ysk/work/cargo-llvmcov/src/main.rs","edition":"2018","doctest":false,"test":true},"profile":{"opt_level":"0","debuginfo":2,"debug_assertions":true,"overflow_checks":true,"test":false},"features":[],"filenames":["/home/ysk/work/cargo-llvmcov/target/debug/cargo-llvmcov"],"executable":"/home/ysk/work/cargo-llvmcov/target/debug/cargo-llvmcov","fresh":true}"#;
    let m = decode_build_message(m).unwrap();
    assert_eq!(
        BuildMessage::CompilerArtifact {
            target: BuildTarget { test: true },
            profile: BuildProfile { test: false },
            executable: Some("/home/ysk/work/cargo-llvmcov/target/debug/cargo-llvmcov".to_string())
        },
        m
    );

    let m = r#"{"reason":"build-script-executed","package_id":"indexmap 1.6.0 (registry+https://github.com/rust-lang/crates.io-index)","linked_libs":[],"linked_paths":[],"cfgs":["has_std"],"env":[],"out_dir":"/home/ysk/work/cargo-llvmcov/target/debug/build/indexmap-df2d449462c3d567/out"}"#;
    let m = decode_build_message(m).unwrap();
    assert_eq!(BuildMessage::BuildScriptExecuted, m);

    let m = r#"{"reason":"build-finished","success":true}"#;
    let m = decode_build_message(m).unwrap();
    assert_eq!(BuildMessage::BuildFinished { success: true }, m);
}

#[test]
fn decode_rejects_malformed_json() {
    let e = decode_build_message("this is not json").unwrap_err();
    assert!(!e.message().is_empty());
}

#[test]
fn decode_rejects_unknown_reason() {
    let e = decode_build_message(r#"{"reason":"something-else"}"#).unwrap_err();
    assert_eq!(e.message(), "malformed build message.");
}

#[test]
fn decode_rejects_missing_discriminator() {
    let e = decode_build_message(r#"{"success":true}"#).unwrap_err();
    assert_eq!(e.message(), "malformed build message.");
}

#[test]
fn decode_rejects_artifact_without_flags() {
    let e = decode_build_message(r#"{"reason":"compiler-artifact","target":{"test":true}}"#)
        .unwrap_err();
    assert_eq!(e.message(), "malformed build message.");
}

#[test]
fn decode_rejects_non_object_document() {
    let e = decode_build_message("[1,2]").unwrap_err();
    assert_eq!(e.message(), "malformed build message.");
}

#[test]
fn decode_rejects_non_string_executable() {
    let e = decode_build_message(
        r#"{"reason":"compiler-artifact","target":{"test":true},"profile":{"test":true},"executable":42}"#,
    )
    .unwrap_err();
    assert_eq!(e.message(), "malformed build message.");
}

#[test]
fn decode_artifact_with_null_executable() {
    let m = decode_build_message(
        r#"{"reason":"compiler-artifact","target":{"test":true},"profile":{"test":true},"executable":null}"#,
    )
    .unwrap();
    assert_eq!(
        BuildMessage::CompilerArtifact {
            target: BuildTarget { test: true },
            profile: BuildProfile { test: true },
            executable: None
        },
        m
    );
}

#[test]
fn decode_build_finished_failure() {
    let m = decode_build_message(r#"{"reason":"build-finished","success":false}"#).unwrap();
    assert_eq!(BuildMessage::BuildFinished { success: false }, m);
}
