[package]
name = "sniff"
version = "0.1.0"
edition = "2021"
publish = false

[dependencies]
prost = "*"
googleplay-protobuf = "*"
bincode = { version = "2", features = ["derive"] }
bytes = "*"
reqwest = { version = "*", default-features = false }
tokio = { version = "*", features = ["sync"] }
worker = "*"
serde = { version = "1", features = ["derive"] }
utoipa = "*"
console_error_panic_hook = "*"
