[package]
name = "tools2600"
version = "0.1.0"
edition = "2021"
publish = false

[dependencies]
anyhow = "1"
clap = { version = "4", features = ["derive"] }
image = { version = "0.24", default-features = false, features = ["png", "gif", "bmp"] }
macroquad = "0.4"
serde = { version = "1", features = ["derive"] }
serde_yaml = "0.9"
