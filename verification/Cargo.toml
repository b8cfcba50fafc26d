[package]
name = "luminode"
version = "0.1.0"
edition = "2021"
publish = false

[dependencies]
dotenvy = "=0.15.7"
rmp-serde = "=1.3.1"
serde = { version = "=1.0.229", features = ["derive"] }
serde_json = "=1.0.154"
smart-leds-trait = "=0.2.1"
ureq = "=2.12.1"
ws281x-rpi = "=0.0.1"
