[package]
name = "media_remote"
version = "0.1.0"
edition = "2021"
publish = false

[dependencies]
esp32-nimble = "*"
esp-idf-hal = "*"
esp-idf-sys = "*"
