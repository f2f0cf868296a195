[package]
name = "toml_bombadil"
version = "0.1.0"
edition = "2021"
publish = false

[dependencies]
dirs = "*"
config = "*"
serde = { version = "*", features = ["derive"] }
colored = "*"
