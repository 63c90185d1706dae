[package]
name = "authust"
version = "0.1.0"
edition = "2021"
publish = false

[dependencies]
chrono = "=0.4.45"
hmac = "=0.13.0"
sha2 = "=0.11.1"
rust-argon2 = { version = "=3.0.0", default-features = false }
actix-web = { version = "=4.18.1", default-features = false, features = ["macros"] }
deadpool-postgres = "=0.14.2"
tokio-postgres = { version = "=0.7.18", features = ["with-chrono-0_4"] }
async-trait = "=0.1.92"
log = "=0.4.34"
serde = { version = "=1.0.229", features = ["derive"] }
serde_json = "=1.0.154"
