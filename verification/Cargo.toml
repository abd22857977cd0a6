[package]
name = "crab_dlna"
version = "0.1.0"
edition = "2021"
publish = false

[dependencies]
clap = { version = "=3.2.25", features = ["derive"] }
futures-util = "=0.3.34"
http = "=0.2.12"
local-ip-address = "=0.4.9"
log = "=0.4.34"
pin-utils = "=0.1.1"
pretty_env_logger = "=0.4.0"
rupnp = "2"
slugify = "=0.1.0"
ssdp-client = "2"
tokio = { version = "=1.54.1", features = ["full"] }
warp = "=0.3.7"
xml-rs = "=0.8.29"
