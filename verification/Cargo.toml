[package]
name = "radio_sweep"
version = "0.1.0"
edition = "2021"
publish = false

[dependencies]
anyhow = "=1.0.104"
embedded-svc = "=0.28.1"
esp-idf-hal = "=0.45.2"
esp-idf-svc = "=0.51.0"
futures = "=0.3.34"
log = "=0.4.34"
nrf24-rs = "=0.2.0"
