[package]
name = "aptos-remote-signer"
version = "0.1.0"
edition = "2021"
publish = false

[dependencies]
anyhow = "=1.0.104"
bcs = "=0.1.6"
clap = { version = "=4.6.7", features = ["derive"] }
hex = "=0.4.3"
http = "=0.2.12"
pbjson = "=0.6.0"
prost = "=0.12.6"
serde = { version = "=1.0.229", features = ["derive"] }
serde_yaml = "=0.9.34"
tokio = { version = "=1.54.1", features = ["full"] }
rand = "=0.8.8"
tonic = { version = "=0.11.0", features = ["tls"] }
