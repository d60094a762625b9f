[package]
name = "color_organ"
version = "0.1.0"
edition = "2021"
publish = false

[dependencies]
smart-leds = "*"
ws2812-spi = "*"
embedded-hal = "1"
