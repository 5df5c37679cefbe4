[package]
name = "grpc_router"
version = "0.1.0"
edition = "2021"
publish = false

[dependencies]
async-trait = "0.1"
axum = { version = "0.8", default-features = false, features = ["json"] }
bytes = "1"
futures = "0.3"
http = "1"
parking_lot = "0.12"
serde = { version = "1", features = ["derive"] }
serde_json = "1"
tokio = { version = "1", features = ["rt", "rt-multi-thread", "sync", "time", "macros"] }
tokio-stream = "0.1"
tonic = { version = "0.12", default-features = false, features = ["codegen"] }
tracing = "0.1"
ulid = "1"
