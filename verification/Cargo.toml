[package]
name = "binary_options_tools_js"
version = "0.1.0"
edition = "2021"
publish = false

[dependencies]
anyhow = "1"
chrono = "0.4"
darling = "0.20"
futures-util = "0.3"
napi = { version = "2", features = ["async", "serde-json"] }
napi-derive = "2"
once_cell = "1"
proc-macro2 = "1"
quote = "1"
regex = "1"
serde = { version = "1", features = ["derive"] }
serde_json = "1"
syn = "2"
thiserror = "1"
tokio = { version = "1", features = ["rt-multi-thread", "sync", "time"] }
tracing = "0.1"
tracing-subscriber = "0.3"
url = "2"
uuid = "1"
