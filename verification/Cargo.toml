[package]
name = "spi_bringup"
version = "0.1.0"
edition = "2021"
publish = false

[dependencies]
cortex-m = "0.7"
cortex-m-rt = "0.7"
embedded-hal = { version = "0.2", features = ["unproven"] }
enc28j60 = "0.2"
rtt-target = { version = "0.3", features = ["cortex-m"] }
stm32f0xx-hal = { version = "0.18", features = ["stm32f042", "rt"] }
