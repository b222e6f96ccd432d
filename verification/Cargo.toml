[package]
name = "smolvm_graphics"
version = "0.1.0"
edition = "2021"
publish = false

[dependencies]
serde = { version = "1", features = ["derive"] }
serde_json = "1"
tokio = { version = "1", features = ["rt", "net", "io-util", "fs", "sync", "macros", "time"] }
crossbeam-channel = "0.5"
libc = "0.2"
tracing = "0.1"
krun-display = "0.1.0"
krun-input = "0.1.0"
krun-utils = "=0.1.0-1.19.7"
