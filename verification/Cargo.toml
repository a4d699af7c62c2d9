[package]
name = "yta_cli"
version = "0.1.0"
edition = "2021"
publish = false

[dependencies]
clap = { version = "=4.6.7", features = ["derive"] }
dirs-next = "=2.0.0"
reedline = { version = "=0.52.1", features = ["external_printer"] }
rodio = "=0.22.2"
sanitize-filename = "=0.6.0"
serde = { version = "=1.0.229", features = ["derive"] }
serde_json = "=1.0.151"
shell-words = "=1.1.1"
tokio = { version = "=1.53.2", features = ["full"] }
which = "=8.0.6"
