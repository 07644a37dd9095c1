[package]
name = "whispercpp"
version = "0.2.1"
edition = "2021"
publish = false

[dependencies]
smol_str = "0.3"
serde = "1"
thiserror = "2"

[dev-dependencies]
serde_json = "1"
