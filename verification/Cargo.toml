[package]
name = "deepstate_mm"
version = "0.1.0"
edition = "2021"
publish = false

[dependencies]
alloy = { version = "~1.0", default-features = false, features = ["std", "reqwest", "contract", "provider-http", "signer-local"] }
anyhow = "1"
serde = { version = "1", features = ["derive"] }
serde_json = "1"
tokio = { version = "1", features = ["rt-multi-thread", "macros", "time"] }
tracing = { version = "0.1", default-features = false, features = ["std"] }
tracing-subscriber = { version = "0.3", default-features = false, features = ["env-filter", "fmt"] }
