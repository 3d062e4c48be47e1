[package]
name = "memo"
version = "0.1.0"
edition = "2021"
publish = false

[dependencies]
anyhow = "1"
clap = { version = "4", features = ["derive", "env"] }
serde = { version = "1", features = ["derive"] }
sha2 = "0.10"
toml = "0.8"

[dev-dependencies]
tempfile = "3"
