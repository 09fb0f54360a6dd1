[package]
name = "nav_control"
version = "0.1.0"
edition = "2021"
publish = false

[dependencies]
numtoa = "0.2"
w5500 = "0.1"
heapless = "0.4"
nb = "0.1"
embedded-hal = "0.2"
cortex-m = "0.5"
cortex-m-rt = "0.6"
panic-semihosting = "0.5"
stm32f1xx-hal = { version = "0.2", features = ["stm32f103", "rt"] }
