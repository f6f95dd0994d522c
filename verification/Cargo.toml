[package]
name = "auth_core"
version = "0.1.0"
edition = "2021"
publish = false

[dependencies]
argon2 = "=0.5.3"
totp-rs = { version = "=5.7.2", features = ["otpauth", "gen_secret"] }
qrcode = { version = "=0.14.1", default-features = false }
base64 = "=0.22.1"
rand = "=0.9.5"
rs-snowflake = "=0.6.0"
serde = { version = "1", features = ["derive"] }
actix-web = "4"
env_logger = "0.11"
