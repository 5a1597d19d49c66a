[package]
name = "auth_core"
version = "0.1.0"
edition = "2021"
publish = false

[dependencies]
anyhow = "=1.0.104"
axum = "=0.8.9"
bcrypt = "=0.19.3"
chrono = "=0.4.45"
dotenvy = "=0.15.7"
getrandom = "=0.4.3"
serde = { version = "=1.0.229", features = ["derive"] }
tokio = { version = "=1.53.2", features = ["rt-multi-thread", "macros", "net"] }
tower-http = { version = "=0.7.1", features = ["cors"] }
tracing-subscriber = "=0.3.23"
uuid = { version = "=1.27.0", features = ["v4"] }
