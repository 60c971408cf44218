[package]
name = "cytryna"
version = "0.1.0"
edition = "2021"
publish = false

[dependencies]
aes = "0.8"
cbc = { version = "0.1", features = ["alloc"] }
ctr = "0.9"
hex = "0.4"
sha2 = "0.10"
anyhow = "1"
bmp = "*"
clap = { version = "4", features = ["derive"] }
goblin = "*"
image = { version = "*", default-features = false }

[dev-dependencies]
rand = "0.8"
