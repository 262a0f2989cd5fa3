[package]
name = "sherbus"
version = "0.1.0"
edition = "2021"
publish = false

[dependencies]
rp2040-hal = "0.10"
pio-proc = "0.2"
pio = "0.2"
