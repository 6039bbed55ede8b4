[package]
name = "dilobo"
version = "0.1.0"
edition = "2021"
publish = false

[dependencies]
discord = { version = "0.8", default-features = false }
error-chain = "0.12"
rustc-serialize = "0.3"
serde_json = "1"
strfmt = "*"
toml = "0.2"
