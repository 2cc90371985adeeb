[package]
name = "bobbbay"
version = "0.1.0"
edition = "2021"
publish = false

[dependencies]
axum = "0.5"
color-eyre = "0.6"
rand = "0.7"
serde_json = "1"
tera = "1"
tokio = { version = "1", features = ["macros", "rt-multi-thread"] }
tower-http = { version = "0.3", features = ["fs", "trace"] }
tracing = "0.1"
tracing-error = "0.2"
tracing-subscriber = "0.3"
