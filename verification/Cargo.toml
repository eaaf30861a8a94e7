[package]
name = "proxy_reencyption_enclave_app"
version = "0.1.0"
edition = "2021"
publish = false

[dependencies]
clap = "=4.6.7"
ecies-ed25519 = "=0.6.0"
ed25519-dalek = "=3.0.0"
hex = "=0.4.3"
nix = { version = "=0.31.3", features = ["socket"] }
rand = "=0.10.3"
recrypt = "=0.14.1"
rocket = { version = "=0.5.1", features = ["json"] }
serde = { version = "=1.0.229", features = ["derive"] }
serde_json = "=1.0.151"
tokio = { version = "=1.53.2", features = ["macros", "rt-multi-thread"] }
