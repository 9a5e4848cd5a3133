[package]
name = "button_debounce"
version = "0.1.0"
edition = "2021"
publish = false

[dependencies]
embedded-hal = { version = "=0.2.7", features = ["unproven"] }
embedded-graphics = "=0.8.2"
ili9341 = "=0.6.0"
profont = "=0.7.0"
