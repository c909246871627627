[package]
name = "runc"
version = "0.1.0"
edition = "2021"
publish = false

[dependencies]
tokio = { version = "1", features = ["rt", "process", "sync", "fs", "time", "io-util", "macros"] }
serde_json = "1"
oci-spec = "*"
