[package]
name = "tinker"
version = "0.1.0"
edition = "2021"
publish = false

[dependencies]
url = "2.5"
urlencoding = "2.1"
serde = { version = "1", features = ["derive"] }
serde_json = "1"
chrono = "0.4"
thiserror = "1"
anyhow = "1"
tracing = "0.1"
tracing-subscriber = { version = "0.3", features = ["env-filter"] }
clap = { version = "4", features = ["derive"] }
tokio = { version = "1", features = ["macros", "rt-multi-thread", "sync"] }
axum = { version = "0.6", features = ["ws"] }
futures-util = "0.3"
async-trait = "0.1"
rumqttc = "0.24"
base64 = "0.21"
image = { version = "0.24", default-features = false, features = ["png", "jpeg", "webp"] }
imageproc = { version = "0.23", default-features = false }
