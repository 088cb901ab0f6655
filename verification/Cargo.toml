[package]
name = "handy_core"
version = "0.1.0"
edition = "2021"
publish = false

[dependencies]
serde_json = "*"
serde = { version = "*", features = ["derive"] }
ferrous-opencc = "*"
base64 = "0.22.1"
handy-keys = "*"
hound = "*"
anyhow = "*"
log = "*"
once_cell = "*"
chrono = "*"
enigo = "*"
