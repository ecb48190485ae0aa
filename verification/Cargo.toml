[package]
name = "ids_core"
version = "0.1.0"
edition = "2021"
publish = false

[dependencies]
etherparse = "*"
pcap = "*"
log = "*"
env_logger = "*"
chrono = "*"
serde_json = "*"
