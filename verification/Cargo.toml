[package]
name = "trappo"
version = "0.1.0"
edition = "2021"
publish = false

[dependencies]
toml_edit = "*"
ansi_term = "0.12"
docopt = "1"
serde = { version = "1", features = ["derive"] }
serde_derive = "1"
