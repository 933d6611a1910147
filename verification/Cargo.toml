[package]
name = "job_security"
version = "0.1.0"
edition = "2021"
publish = false

[dependencies]
nix = { version = "0.27", features = ["signal", "term", "fs", "ioctl", "process"] }
termcolor = "1"
bincode = "1"
serde = { version = "1", features = ["derive"] }
bytes = "1"
tokio = { version = "1", features = ["rt", "macros", "io-util", "net", "process", "time"] }
tokio-util = { version = "0.7", features = ["codec"] }
clap = { version = "4", features = ["derive"] }
tabled = "0.14"
thiserror = "1"
daemonize = "0.5"
tracing-subscriber = { version = "0.3", features = ["env-filter"] }
