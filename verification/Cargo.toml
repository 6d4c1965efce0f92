[package]
name = "streamduck"
version = "0.1.0"
edition = "2021"
publish = false

[dependencies]
directories = "=6.0.0"
serde = { version = "=1.0.229", features = ["derive"] }
serde_json = "=1.0.154"
rmpv = "=1.3.1"
rustyline = "=19.0.0"
rand = "=0.10.3"
log = "=0.4.35"
toml = "*"
dirs = "*"
