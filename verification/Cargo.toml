[package]
name = "ultraviolet"
version = "0.1.0"
edition = "2021"
publish = false

[dependencies]
defmt = "=1.2.0"
embassy-sync = "=0.8.0"
embassy-time = "=0.5.1"
embedded-graphics = "=0.8.2"
embedded-text = "=0.7.3"
ssd1306 = { version = "=0.10.0", features = ["async"] }
