[package]
name = "nova"
version = "0.1.0"
edition = "2021"
publish = false

[dependencies]
actix-web = "*"
serde = { version = "*", features = ["derive"] }
serde_json = "*"
log = "*"
env_logger = "*"
ctrlc = "*"
include_dir = "*"
mime_guess = "*"
pcap = "*"
mac_address = "*"
glam = "*"
palette = "*"
noise = "*"
rand = "*"
cpal = "*"
fundsp = "*"
miniquad = "*"
