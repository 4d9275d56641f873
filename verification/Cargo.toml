[package]
name = "pgscram"
version = "0.1.0"
edition = "2021"
publish = false

[dependencies]
base64 = "*"
hmac = "*"
pbkdf2 = "*"
rand = "*"
sha2 = "*"
dotenv = "*"
once_cell = "*"
postgres = "*"
tokio = { version = "*", features = ["rt-multi-thread", "macros"] }
tokio-postgres = "*"
