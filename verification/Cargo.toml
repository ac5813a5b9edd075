[package]
name = "load_balancer"
version = "0.1.0"
edition = "2021"
publish = false

[dependencies]
rand = "*"
uuid = { version = "*", features = ["v4"] }
axum = "*"
tokio = { version = "*", features = ["rt-multi-thread", "macros", "net", "time"] }
reqwest = { version = "*", default-features = false }
http = "*"
tower-http = { version = "*", features = ["request-id"] }
clap = { version = "*", features = ["derive"] }
tracing = "*"
tracing-subscriber = { version = "*", features = ["env-filter"] }
bytes = "*"
