[package]
name = "tabby"
version = "0.1.0"
edition = "2021"
publish = false

[dependencies]
axum = "0.7"
clap = { version = "4", features = ["derive"] }
hyper = "1"
spinners = "4"
tokio = { version = "1", features = ["macros", "rt-multi-thread", "sync", "time", "net"] }
tower-http = { version = "0.5", features = ["timeout"] }
tracing = "0.1"
utoipa = "4"
utoipa-swagger-ui = { version = "5", features = ["axum"] }
