[package]
name = "webhook_server"
version = "0.1.0"
edition = "2021"
publish = false

[dependencies]
hex = "=0.4.3"
hmac = "=0.13.0"
sha1 = "=0.11.0"
base64 = "=0.23.1"
handlebars = "=6.4.4"
serde = { version = "=1.0.229", features = ["derive"] }
serde_json = "=1.0.151"
serde_yaml = "=0.9.34"
actix-web = { version = "=4.15.0", features = ["rustls-0_23"] }
pueue-lib = "=0.31.1"
dirs = "=6.0.0"
rustls = "=0.23.45"
rustls-pemfile = "=2.2.0"
