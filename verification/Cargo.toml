[package]
name = "morse_blink"
version = "0.1.0"
edition = "2021"
publish = false

[dependencies]
anyhow = "*"
log = "*"
esp-idf-hal = "*"
esp-idf-svc = "*"
esp-idf-sys = "*"
