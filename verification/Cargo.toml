[package]
name = "catapult"
version = "0.1.0"
edition = "2021"
publish = false

[dependencies]
allocative = "*"
anyhow = "*"
base64 = "*"
dirs = "*"
env_logger = "*"
flate2 = "*"
getopts = "*"
log = "*"
reqwest = { version = "*", default-features = false, features = ["blocking", "json"] }
serde = { version = "*", features = ["derive"] }
starlark = "*"
tar = "*"
toml = "*"
uuid = { version = "*", features = ["v4"] }
