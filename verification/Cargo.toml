[package]
name = "custom_resource_provider"
version = "0.1.0"
edition = "2021"
publish = false

[dependencies]
ring = "=0.17.14"
hyper = { version = "=0.14.32", features = ["client", "http1", "http2", "tcp"] }
hyper-rustls = { version = "=0.24.2", features = ["http2"] }
lambda_runtime = "=1.4.0"
serde = { version = "=1.0.229", features = ["derive"] }
serde_derive = "=1.0.229"
serde_json = "=1.0.151"
tokio = { version = "=1.53.2", features = ["macros", "rt-multi-thread"] }
async-trait = "=0.1.92"
tracing = "=0.1.44"
tracing-subscriber = "=0.3.23"
