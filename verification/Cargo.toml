[package]
name = "ipc_benchmark"
version = "0.1.0"
edition = "2021"
publish = false

[dependencies]
uuid = { version = "*", features = ["v7"] }
anyhow = "*"
bytes = "*"
conv = "*"
ipc-channel = "*"
memmap = "*"
raw_sync = "*"
serde = { version = "*", features = ["derive"] }
serde_json = "*"
shared_memory = "*"
shared-mem-queue = "*"
tracing = "*"
tracing-subscriber = { version = "*", features = ["env-filter"] }
