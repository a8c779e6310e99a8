[package]
name = "phosphene"
version = "0.1.0"
edition = "2021"
publish = false

[dependencies]
anstream = "=1.0.0"
blake3 = "=1.8.7"
clap = { version = "=4.6.7", features = ["derive"] }
directories = "=5.0.1"
hex = "=0.4.3"
image = "=0.25.10"
memmap2 = "=0.9.12"
redb = "=3.1.3"
serde = { version = "=1.0.229", features = ["derive"] }
toml = "=0.8.23"
viuer = "=0.9.2"
