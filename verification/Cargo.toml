[package]
name = "webapp_core"
version = "0.1.0"
edition = "2021"
publish = false

[dependencies]
axum = "*"
base64-url = "*"
hmac = "*"
serde = { version = "*", features = ["derive"] }
serde_json = "*"
sha2 = "*"
tokio = { version = "*", features = ["full"] }
tower-cookies = "*"
tower-http = { version = "*", features = ["fs"] }
tracing = "*"
uuid = { version = "*", features = ["v4"] }

[dev-dependencies]
rand = "*"
