[package]
name = "crkcam"
version = "0.1.0"
edition = "2021"
publish = false

[dependencies]
heapless = "0.8"
cortex-m = "*"
cortex-m-rt = "*"
panic-halt = "*"
stm32f1 = { version = "*", features = ["stm32f103", "rt"] }
