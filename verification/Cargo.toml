[package]
name = "amaris"
version = "0.1.0"
edition = "2021"
publish = false

[dependencies]
anyhow = "*"
clap = { version = "*", features = ["derive"] }
inquire = "*"
serde_json = "*"
tokio = { version = "*", features = ["macros", "rt-multi-thread", "process"] }
tracing = "*"
which = "*"
