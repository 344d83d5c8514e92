[package]
name = "riji"
version = "0.1.0"
edition = "2021"
publish = false

[dependencies]
ansi_term = "0.12"
ctor = "*"
dunce = "1"
git2 = { version = "*", default-features = false }
output_vt100 = "*"
rand = "0.8"
regex = "1"
rhai = { version = "1", features = ["serde"] }
toml = "*"
uuid = { version = "1", features = ["v4"] }
