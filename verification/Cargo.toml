[package]
name = "formula_scanner"
version = "0.1.0"
edition = "2021"
publish = false

[dependencies]
anyhow = "1"
async-trait = "0.1"
base64 = "0.21"
chrono = "0.4"
dirs = "5"
image = { version = "0.24", default-features = false, features = ["png", "jpeg", "gif", "bmp", "webp"] }
reqwest = { version = "0.11", default-features = false, features = ["json"] }
serde = { version = "1", features = ["derive"] }
serde_json = "1"
tokio = { version = "1", features = ["rt", "time", "macros"] }
uuid = { version = "1", features = ["v4"] }
