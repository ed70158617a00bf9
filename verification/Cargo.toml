[package]
name = "inky_screen"
version = "0.1.0"
edition = "2021"
publish = false

[dependencies]
ssd1675 = "=0.5.0"
embedded-graphics = "=0.7.1"
embedded-hal = { version = "=0.2.7", features = ["unproven"] }
linux-embedded-hal = "=0.3.2"
