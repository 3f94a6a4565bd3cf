[package]
name = "clap_validator"
version = "0.1.0"
edition = "2021"
publish = false

[dependencies]
anyhow = "=1.0.104"
clap-sys = "=0.5.0"
crossbeam = "=0.8.5"
log = "=0.4.35"
parking_lot = "=0.12.5"
