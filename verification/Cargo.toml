[package]
name = "crypto_store"
version = "0.1.0"
edition = "2021"
publish = false

[dependencies]
vodozemac = "*"
rmp-serde = "1"
serde = { version = "1", features = ["derive"] }
ruma = { version = "*", default-features = false, features = ["events"] }
tokio = { version = "1", default-features = false, features = ["sync", "time"] }
tokio-stream = { version = "0.1", default-features = false, features = ["sync"] }
futures-core = "0.3"
futures-util = "0.3"
thiserror = "*"
tracing = "0.1"
