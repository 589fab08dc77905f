[package]
name = "haretropanel"
version = "0.1.0"
edition = "2021"
publish = false

[dependencies]
reqwest = { version = "*", default-features = false, features = ["json"] }
serde = { version = "*", features = ["derive"] }
serde_json = "*"
axum = { version = "*", features = ["ws"] }
askama = "*"
tokio = { version = "*", features = ["full"] }
async-trait = "*"
chrono = "*"
dotenvy = "*"
futures-util = "*"
thiserror = "*"
tracing = "*"
tracing-appender = "*"
tracing-subscriber = { version = "*", features = ["env-filter"] }
