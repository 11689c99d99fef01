[package]
name = "admin_guard"
version = "0.1.0"
edition = "2021"
publish = false

[dependencies]
actix-web = { version = "4", default-features = false }
bcrypt = "*"
http-signature-normalization-actix = { version = "*", default-features = false }
serde_json = "1"
thiserror = "1"
tracing = "0.1"
tracing-error = "0.2"
