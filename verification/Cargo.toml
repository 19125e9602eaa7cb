[package]
name = "account_backend"
version = "0.1.0"
edition = "2021"
publish = false

[dependencies]
argon2 = "=0.6.0"
jsonwebtoken = { version = "=11.1.0", features = ["rust_crypto"] }
time = "=0.3.55"
rand = "=0.10.3"
serde = { version = "=1.0.229", features = ["derive"] }
serde_json = "=1.0.151"
actix-web = "=4.15.0"
actix-cors = "=0.7.2"

[dev-dependencies]
regex = "=1.13.1"
rsa = "=0.9.10"
