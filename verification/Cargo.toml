[package]
name = "app_shell"
version = "0.1.0"
edition = "2021"
publish = false

[dependencies]
serde = { version = "*", features = ["derive"] }
tokio = { version = "*", features = ["rt", "time"] }
