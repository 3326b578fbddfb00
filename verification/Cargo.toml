[package]
name = "cargo_x402"
version = "0.1.0"
edition = "2021"
publish = false

[dependencies]
chrono = "=0.4.45"
clap = { version = "=4.6.7", features = ["derive"] }
colored = "=3.1.1"
dialoguer = "=0.12.0"
dirs = "=7.0.0"
indicatif = "=0.18.6"
liquid = "=0.25.1"
regex = "=1.13.1"
reqwest = { version = "=0.13.5", default-features = false }
semver = "=1.0.28"
serde = { version = "=1.0.229", features = ["derive"] }
serde_json = "=1.0.151"
tempfile = "=3.27.0"
tokio = { version = "=1.53.2", features = ["macros", "rt-multi-thread"] }
toml = "=1.1.7"
walkdir = "=2.5.0"
whoami = "=2.1.3"
zip = { version = "=8.6.0", default-features = false, features = ["deflate"] }
