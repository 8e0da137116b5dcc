[package]
name = "auth_service"
version = "0.11.0"
edition = "2021"
publish = false

[dependencies]
argon2 = { version = "=0.5.3", features = ["std"] }
async-trait = "=0.1.92"
axum = "=0.8.9"
base64 = "=0.22.1"
chrono = { version = "=0.4.45", features = ["serde"] }
dotenvy = "=0.15.7"
firestore = "=0.61.1"
governor = "=0.10.4"
jsonwebtoken = { version = "=11.1.0", features = ["aws_lc_rs"] }
reqwest = { version = "=0.12.28", default-features = false, features = ["rustls-tls"] }
serde = { version = "=1.0.229", features = ["derive"] }
serde_json = "=1.0.154"
sha1 = "=0.10.7"
sha2 = "=0.10.9"
tokio = { version = "=1.54.1", features = ["macros", "net", "rt-multi-thread"] }
totp-rs = { version = "=5.7.2", features = ["gen_secret", "otpauth"] }
tower-http = { version = "=0.6.11", features = ["trace"] }
tower_governor = { version = "=0.8.0", features = ["tracing"] }
tracing = "=0.1.44"
tracing-subscriber = { version = "=0.3.23", features = ["env-filter"] }
url = "=2.5.8"

[dev-dependencies]
p256 = { version = "=0.13.2", features = ["ecdsa", "pkcs8"] }
