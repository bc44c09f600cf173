[package]
name = "imageflash"
version = "0.1.0"
edition = "2021"
publish = false

[dependencies]
bzip2 = "*"
color-eyre = "*"
dialoguer = "*"
env_logger = "*"
flate2 = "*"
hex = "*"
indicatif = "*"
libc = "*"
liblzma = "*"
log = "*"
lz4_flex = "*"
serde = { version = "*", features = ["derive"] }
serde_yaml = "*"
sha2 = "*"
zstd = "*"
