[package]
name = "cep18"
version = "0.1.0"
edition = "2021"
publish = false

[dependencies]
base64 = "=0.13.1"
hex = "=0.4.3"
casper-types = "=6.1.0"
casper-event-standard = "=0.7.0"

[dependencies.casper-contract]
version = "=5.1.1"
default-features = false
features = ["std"]
