[package]
name = "auth_core"
version = "0.1.0"
edition = "2021"
publish = false

[dependencies]
argon2 = { version = "=0.5.3", features = ["std"] }
password-hash = { version = "=0.5.0", features = ["getrandom"] }
hmac = "=0.13.0"
sha2 = "=0.11.0"
warp = { version = "=0.4.3", features = ["server"] }
tokio = { version = "=1.53.2", features = ["full"] }
serde = { version = "=1.0.229", features = ["derive"] }
serde_json = "=1.0.151"
chrono = "=0.4.45"
clap = { version = "=4.6.7", features = ["derive", "env"] }
thiserror = "=2.0.21"
anyhow = "=1.0.104"
uuid = { version = "=1.27.0", features = ["v4"] }
mongodb = "=3.9.1"
