[package]
name = "monitor_bootstrap"
version = "0.1.0"
edition = "2021"
publish = false

[dependencies]
argh = "0.1"
chrono = "0.4"
eyre = "0.6"
fern = "0.6"
log = "0.4"
serde_yaml = "0.8"
zenoh = "0.7.0-rc"
