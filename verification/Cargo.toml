[package]
name = "support_bot"
version = "0.1.0"
edition = "2021"
publish = false

[dependencies]
anyhow = "1"
argh = "0.1"
async-compat = "0.2"
base64 = "=0.13.1"
env_logger = "0.10"
isahc = { version = "1", default-features = false, features = ["text-decoding"] }
log = "0.4"
once_cell = "1"
rand = "=0.8.8"
regex = "=1.13.1"
reqwest = { version = "0.11", default-features = false, features = ["native-tls"] }
serde = { version = "1", features = ["derive"] }
serde_json = "=1.0.154"
serde_yaml = "0.9"
smol = "2"
smol-timeout = "0.6"
sqlx = { version = "0.6", default-features = false, features = ["runtime-async-std-native-tls", "sqlite", "postgres"] }
warp = { version = "0.3", default-features = false }
