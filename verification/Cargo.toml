[package]
name = "smart_compass"
version = "0.1.0"
edition = "2021"
publish = false

[dependencies]
radio-sx127x = { version = "=0.14.0", default-features = false }
embedded-hal = "=1.0.0-alpha.7"
