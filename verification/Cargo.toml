[package]
name = "stm32f411_nucleo"
version = "0.1.0"
edition = "2021"
publish = false

[dependencies]
stm32f4 = { version = "=0.15.1", features = ["stm32f411"] }
cortex-m = "0.7"
nalgebra = "0.33"
