[package]
name = "ai_gui"
version = "0.1.0"
edition = "2021"
publish = false

[dependencies]
base64 = "0.22"
uuid = { version = "1", features = ["v4"] }
chrono = { version = "0.4", features = ["serde"] }
serde = { version = "1", features = ["derive"] }
serde_json = "1"
tokio = { version = "1", features = ["full"] }
reqwest = { version = "0.12", default-features = false, features = ["json", "rustls-tls"] }
async-trait = "0.1"
futures = "0.3"
thiserror = "2"
arboard = "3"
trash = "5"
chromiumoxide = { version = "0.7", default-features = false, features = ["tokio-runtime"] }
