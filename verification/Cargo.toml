[package]
name = "session_auth"
version = "0.1.0"
edition = "2021"
publish = false

[dependencies]
axum = "0.7"
axum-extra = { version = "0.9", features = ["typed-header"] }
bcrypt = "0.15"
handlebars = "5"
serde = { version = "1", features = ["derive"] }
serde_derive = "1"
serde_json = "1"
thiserror = "1"
time = "0.3"
tokio = { version = "1", features = ["full"] }
tower-http = { version = "0.5", features = ["fs", "trace"] }
tracing = "0.1"
tracing-subscriber = "0.3"
