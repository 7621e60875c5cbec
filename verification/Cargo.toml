[package]
name = "imgconvert"
version = "0.1.0"
edition = "2021"
publish = false

[dependencies]
base64 = "0.22"
image = "0.25"
imgref = "1"
ravif = { version = "0.11", default-features = false, features = ["threading"] }
serde = { version = "1", features = ["derive"] }
serde_json = "1"
thumbhash = "0.1"
webp = "0.3"
