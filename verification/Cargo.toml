[package]
name = "pingora_server"
version = "0.1.0"
edition = "2021"
publish = false

[dependencies]
log = "0.4"
nix = "0.24"
pingora-error = "0.1"
pingora-runtime = "0.1"
pingora-timeout = "0.1"
sentry = { version = "0.26", default-features = false }
tokio = { version = "1", features = ["rt-multi-thread", "signal", "sync", "time", "macros"] }
