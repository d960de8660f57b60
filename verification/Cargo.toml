[package]
name = "rustmail"
version = "0.1.0"
edition = "2021"
publish = false

[dependencies]
base64 = "*"
lettre = { version = "*", default-features = false, features = ["smtp-transport", "builder", "rustls-tls"] }
serde = { version = "*", features = ["derive"] }
actix-web = { version = "*", default-features = false, features = ["macros"] }
actix-web-lab = "*"
env_logger = "*"
log = "*"
