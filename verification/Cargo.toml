[package]
name = "ruela"
version = "0.1.0"
edition = "2021"
publish = false

[dependencies]
ciborium = "*"
directories = "*"
dotenvy = "*"
poise = "*"
poise_error = "*"
serde = { version = "*", features = ["derive"] }
tokio = { version = "*", features = ["macros", "rt-multi-thread"] }
tracing = "*"
tracing-journald = "*"
tracing-subscriber = { version = "*", features = ["env-filter"] }
