[package]
name = "sdkwork-drive"
version = "0.1.0"
edition = "2021"
publish = false

[dependencies]
sha2 = "0.10"
uuid = "1"
chrono = { version = "0.4", default-features = false, features = ["clock", "std"] }
serde = { version = "1", features = ["derive"] }
serde_json = "1"
axum = "0.8"
async-trait = "0.1"
tokio = { version = "1", features = ["rt", "time"] }
