[package]
name = "harness"
version = "0.1.0"
edition = "2021"
publish = false

[dependencies]
tokio = { version = "=1.53.2", features = ["process", "rt", "io-util", "macros"] }
nix = { version = "=0.31.3", features = ["signal", "process", "fs", "poll"] }
tempdir = "=0.3.7"
fs_extra = "=1.3.0"
