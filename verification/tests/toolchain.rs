use cargo_llvmcov::toolchain::{cargo, cargo_home, ignore_pattern, rustup_home};

#[test]
fn test_cargo() {
    assert_eq!(String::from("x"), cargo(Some("x".to_string())));
    assert_eq!(String::from("cargo"), cargo(None));
}

#[test]
fn test_cargo_home() {
    assert_eq!("x", cargo_home(Some("x".to_string())));
    assert_eq!("", cargo_home(None));
}

#[test]
fn test_rustup_home() {
    assert_eq!("x", rustup_home(Some("x".to_string())));
    assert_eq!("", rustup_home(None));
}

#[test]
fn ignore_pattern_joins_homes_as_alternatives() {
    assert_eq!(ignore_pattern("/home/u/.cargo", "/home/u/.rustup"), "/home/u/.cargo|/home/u/.rustup");
    assert_eq!(ignore_pattern("", ""), "|");
}
