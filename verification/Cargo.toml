[package]
name = "openaws_vpn_client"
version = "0.1.0"
edition = "2021"
publish = false

[dependencies]
hex = "=0.4.3"
rand = "=0.10.3"
tokio = { version = "=1.53.2", features = ["full"] }
warp = { version = "=0.4.3", features = ["server"] }
domain = { version = "=0.12.3", features = ["resolv"] }
open = "=5.4.4"
temp-dir = "=0.2.0"
dirs = "=7.0.0"
clap = "=4.6.7"
