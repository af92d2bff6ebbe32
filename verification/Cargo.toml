[package]
name = "koshelf"
version = "0.1.0"
edition = "2021"
publish = false

[dependencies]
regex = "1"
ipnet = "2"
clap = { version = "4", features = ["derive", "env"] }
serde = { version = "1", features = ["derive"] }
toml = "0.8"
anyhow = "1"
