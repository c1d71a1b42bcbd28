[package]
name = "firmware"
version = "0.1.0"
edition = "2021"
publish = false

[dependencies]
cortex-m = "*"
cortex-m-rt = "*"
panic-halt = "*"
stm32ral = { version = "*", features = ["stm32f0x2", "rt"] }
