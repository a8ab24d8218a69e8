[package]
name = "cargo_llvmcov"
version = "0.1.0"
edition = "2021"
publish = false

[dependencies]
serde_json = "*"
cargo_metadata = "*"
anyhow = "*"
clap = { version = "*", features = ["derive"] }
glob = "*"
log = "*"
opener = "*"
stderrlog = "*"
which = "*"
cargo-binutils = "*"
