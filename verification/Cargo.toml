[package]
name = "akizuki"
version = "0.1.0"
edition = "2021"
publish = false

[dependencies]
anyhow = "1"
cityhasher = "*"
clap = { version = "4", features = ["derive"] }
colog = "*"
colored = "*"
crc = "3"
dlopen2 = "*"
env_logger = "*"
flate2 = "1"
log = "0.4"
memmap2 = "*"
once_cell = "1"
serde = { version = "1", features = ["derive"] }
serde_json = "1"
