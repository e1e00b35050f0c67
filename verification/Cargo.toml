[package]
name = "smart_outlet"
version = "0.1.0"
edition = "2021"
publish = false

[dependencies]
anyhow = "=1.0.104"
spin = "=0.9.9"
embedded-svc = "=0.22.1"
esp-idf-hal = "=0.38.1"
esp-idf-svc = "=0.42.5"
esp-idf-sys = "=0.31.12"
