[package]
name = "chacha_cli"
version = "0.1.0"
edition = "2021"
publish = false

[dependencies]
chacha20poly1305 = "0.10"
clap = { version = "4", features = ["derive"] }

[dev-dependencies]
rand = "0.8"
