[package]
name = "hotpath"
version = "0.1.0"
edition = "2021"
publish = false

[dependencies]
alloy = { version = "*", default-features = false, features = ["signer-local", "std"] }
chrono = { version = "*", default-features = false, features = ["clock"] }
rand = "*"
reqwest = { version = "*", default-features = false, features = ["json"] }
rust_decimal = { version = "*", default-features = false }
secrecy = "*"
serde = { version = "*", features = ["derive"] }
serde_json = "*"
url = "*"
