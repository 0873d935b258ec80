[package]
name = "lamp_control"
version = "0.1.0"
edition = "2021"
publish = false

[dependencies]
cortex-m = "0.7"
cortex-m-rt = "0.7"
embedded-hal = { version = "0.2", features = ["unproven"] }
nb = "1"
panic-halt = "*"
stm32f0xx-hal = { version = "0.18", features = ["stm32f030x4"] }
