[package]
name = "user_auth"
version = "0.1.0"
edition = "2021"
publish = false

[dependencies]
bcrypt = "=0.19.3"
serde_json = "=1.0.151"
rand = "=0.10.3"
chrono = "=0.4.45"
lettre = "=0.11.23"

[dependencies.jsonwebtoken]
version = "=11.1.0"
default-features = false
features = ["rust_crypto"]

[dependencies.uuid]
version = "=1.27.0"
features = ["v4"]
