[package]
name = "dma_pwm"
version = "0.1.0"
edition = "2021"
publish = false

[dependencies]
libc = "0.2"
