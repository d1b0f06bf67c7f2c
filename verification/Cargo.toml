[package]
name = "authcore"
version = "0.1.0"
edition = "2021"
publish = false

[dependencies]
sha2 = "*"
argon2 = "*"
rand_core = { version = "0.9", features = ["os_rng"] }
keyring = { version = "3", default-features = false, features = ["linux-native"] }
axum = "0.8"
tokio = { version = "1", features = ["rt-multi-thread", "macros", "net", "time", "sync"] }
tower-cookies = "*"
clap = { version = "4", features = ["derive"] }
serde = { version = "1", features = ["derive"] }
serde_json = "1"
time = "0.3"
anyhow = "1"

[dev-dependencies]
