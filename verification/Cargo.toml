[package]
name = "trojan"
version = "0.1.0"
edition = "2021"
publish = false

[dependencies]
sha2 = "*"
hex = "*"
tokio = { version = "*", features = ["full"] }
tokio-rustls = "*"
rustls = "*"
rustls-pemfile = "*"
webpki-roots = "*"
tokio-tungstenite = "*"
futures = "*"
hickory-resolver = "*"
serde = { version = "*", features = ["derive"] }
toml = "*"
pico-args = "*"
anyhow = "*"
log = "*"
simple_logger = "*"
mime_guess = "*"
