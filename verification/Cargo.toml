[package]
name = "morse_blink"
version = "0.1.0"
edition = "2021"
publish = false

[dependencies]
pio = "=0.3.0"
rp2040-hal = "=0.12.0"
rp2040-boot2 = "=0.3.0"
cortex-m-rt = "=0.7.7"
panic-halt = "=1.0.0"
