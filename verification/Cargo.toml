[package]
name = "session_export"
version = "0.1.0"
edition = "2021"
publish = false

[dependencies]
anyhow = "1"
cliclack = "*"
ignore = "0.4"
nucleo-picker = "*"
regex = "1"
rustyline = "*"
serde = { version = "1", features = ["derive"] }
serde_json = "1"
tracing = "0.1"
