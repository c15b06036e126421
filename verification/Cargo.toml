[package]
name = "pihole_control"
version = "0.1.0"
edition = "2021"
publish = false

[dependencies]
xshell = "=0.2.7"
axum = "=0.8.9"
tokio = { version = "=1.53.2", features = ["macros", "rt-multi-thread", "net", "sync", "time"] }
serde = { version = "=1.0.229", features = ["derive"] }
tracing = "=0.1.44"
tracing-subscriber = "=0.3.23"
