[package]
name = "errors_lib"
version = "0.1.0"
edition = "2021"
publish = false

[dependencies]
nanoid = "0.4"
serde = { version = "1", features = ["derive"] }
miette = "7"
snafu = "0.8"
tracing = "0.1"
tracing-subscriber = { version = "0.3", features = ["env-filter", "json"] }
tracing-appender = "0.2"
tracing-error = "0.2"
color-eyre = "0.6"

[dev-dependencies]
serde_json = "1"
