[package]
name = "ferrosa_raft"
version = "0.1.0"
edition = "2021"
publish = false

[dependencies]
anyerror = "0.1"
serde = { version = "1", features = ["derive"] }
thiserror = "1"
tokio = { version = "1", features = ["macros", "time", "sync", "rt"] }
tracing = "0.1"
