[package]
name = "side-eye-host"
version = "0.1.0"
edition = "2021"
publish = false

[dependencies]
anyhow = "1"
base64 = "0.22"
clap = { version = "4", features = ["derive"] }
dotenvy = "0.15"
figment = { version = "0.10", features = ["toml", "yaml", "json", "env"] }
home = "0.5"
local-ip-address = "0.6"
mac_address = "1"
nvml-wrapper = "*"
serde = { version = "1", features = ["derive"] }
serde_json = "1"
serialport = { version = "4", default-features = false }
sysinfo = "0.30"
