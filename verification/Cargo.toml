[package]
name = "clocktree"
version = "0.1.0"
edition = "2021"
publish = false

[dependencies]
cortex-m = "*"
stm32f4xx-hal = { version = "=0.23.0", features = ["stm32f429"] }
