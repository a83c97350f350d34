[package]
name = "aperture"
version = "0.1.0"
edition = "2021"
publish = false

[dependencies]
http = "=1.5.0"
uuid = { version = "=1.27.0", features = ["v4"] }
axum = "=0.8.9"
reqwest = { version = "=0.13.5", default-features = false, features = ["stream"] }
tokio = { version = "=1.53.2", features = ["rt-multi-thread", "net", "macros", "time"] }
futures-util = { version = "*", default-features = false, features = ["std"] }
dotenvy = "*"
tracing = "*"
tracing-subscriber = { version = "*", features = ["env-filter", "fmt"] }
serde = { version = "*", features = ["derive"] }
thiserror = "*"
portable-pty = "=0.9.0"
