[package]
name = "brew_maintainer"
version = "0.1.0"
edition = "2021"
publish = false

[dependencies]
serde_json = "*"
anyhow = "*"
chrono = "*"
thiserror = "*"
nix = { version = "*", features = ["signal"] }
tokio = { version = "*", features = ["rt-multi-thread", "macros", "process", "io-util", "time"] }
tracing = "*"
tracing-appender = "*"
tracing-subscriber = { version = "*", features = ["env-filter", "fmt"] }
