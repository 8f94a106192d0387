[package]
name = "karaoke"
version = "0.1.0"
edition = "2021"
publish = false

[dependencies]
ringbuf = "=0.2.8"
rustfft = "=6.4.1"
eframe = "=0.19.0"
image = { version = "=0.24.9", default-features = false, features = ["png", "jpeg"] }
futures = "=0.3.34"
cursive = { version = "0.20", default-features = false, features = ["crossterm-backend"] }
