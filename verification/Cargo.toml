[package]
name = "sepp-rs"
version = "0.1.0"
edition = "2021"
publish = false

[dependencies]
tonic = { version = "0.14", features = ["tls-ring", "tls-native-roots"] }
opentelemetry = { version = "0.31", features = ["trace", "metrics"] }
opentelemetry_sdk = { version = "0.31", features = ["trace"] }
tracing = "0.1"
tracing-opentelemetry = "0.32"
uuid = { version = "1", features = ["v4"] }
tokio = { version = "1", features = ["rt", "rt-multi-thread", "macros", "sync", "time"] }
tokio-util = "0.7"
futures = "0.3"
gethostname = "1"
serde = { version = "1", features = ["derive"] }
serde_json = "1"
thiserror = "2"
