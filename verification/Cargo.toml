[package]
name = "idirfein"
version = "0.1.0"
edition = "2021"
publish = false

[dependencies]
base64 = "0.22"
url = "2"
uuid = { version = "1", features = ["v4"] }
rand = "0.8"
totp-rs = { version = "5", features = ["gen_secret"] }
loro = "1"
pulldown-cmark = "0.13"
serde = { version = "1", features = ["derive"] }
serde_json = "1"
dirs = "6"
walkdir = "2"
image = { version = "0.25", default-features = false, features = ["png", "jpeg"] }
keepass = { version = "*", features = ["save_kdbx4"] }
opener = "*"
