[package]
name = "monoio-gateway"
version = "0.1.0"
edition = "2021"
publish = false

[dependencies]
acme-lib = "=0.9.1"
anyhow = "=1.0.104"
async-channel = "=2.5.0"
clap = { version = "=4.6.7", features = ["derive"] }
env_logger = "=0.11.11"
figlet-rs = "=1.0.0"
http = "=1.5.0"
lazy_static = "=1.5.1"
log = "=0.4.34"
monoio = "=0.2.4"
monoio-http = "=0.3.12"
monoio-rustls = "=0.3.0"
rustls = "=0.21.12"
rustls-pemfile = "=1.0.4"
serde = { version = "=1.0.229", features = ["derive"] }
serde_json = "=1.0.154"
toml = "=1.1.8"
webpki-roots = "=0.25.4"
