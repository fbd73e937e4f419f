[package]
name = "sevensegment"
version = "0.1.0"
edition = "2021"
publish = false

[dependencies]
clap = { version = "4", features = ["derive"] }
smart-leds = "*"
