[package]
name = "oracle_scans"
version = "0.1.0"
edition = "2021"
publish = false

[dependencies]
json = "=0.12.4"
ergo-lib = "=0.23.0"
ergo-node-interface = "=0.5.0"
serde_json = "1"
log = "0.4"
thiserror = "1"
