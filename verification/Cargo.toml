[package]
name = "aes4linux"
version = "0.1.0"
edition = "2021"
publish = false

[dependencies]
aes-gcm = "0.10"
argon2 = "0.5"
rand = "0.8"
zip = { version = "0.6", default-features = false, features = ["deflate"] }
walkdir = "2"
clap = { version = "4", features = ["derive"] }
ctrlc = "3"
zeroize = "1"

[dev-dependencies]
tempfile = "3"
