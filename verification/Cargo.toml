[package]
name = "sandbox_backend"
version = "0.1.0"
edition = "2021"
publish = false

[dependencies]
libc = "0.2"
uuid = { version = "1", features = ["v4"] }
landlock = "0.4"
jsonwebtoken = "9"
serde = { version = "1", features = ["derive"] }
serde_json = "1"
base64 = "0.22"
anyhow = "1"
tokio = { version = "1", features = ["full"] }
tokio-util = "0.7"
futures-util = "0.3"
axum = { version = "0.8", features = ["ws"] }
tower-http = { version = "0.6", features = ["cors"] }
tracing = "0.1"
tracing-subscriber = "0.3"
chrono = "0.4"
x11rb = { version = "0.13", features = ["xtest"] }
egui = "0.29"
epaint = "0.29"
redis = { version = "0.25", features = ["tokio-comp"] }
ctrlc = "3"
url = "2"
