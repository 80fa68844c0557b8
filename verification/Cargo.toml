[package]
name = "gitproxy"
version = "0.1.0"
edition = "2021"
publish = false

[dependencies]
serde_json = "1"
json-patch = "*"
jiff = "*"
git2 = { version = "*", default-features = false }
serde = { version = "1", features = ["derive"] }
envy = "*"
tokio = { version = "1", features = ["full"] }
axum = "*"
tower-http = { version = "*", features = ["trace"] }
tracing = "*"
tracing-subscriber = { version = "*", features = ["env-filter", "json"] }
thiserror = "*"
