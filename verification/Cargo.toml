[package]
name = "nrfxlib"
version = "0.1.0"
edition = "2021"
publish = false

[dependencies]
heapless = "=0.5.6"
log = "=0.4.34"
cortex-m = "=0.6.7"
nrf91 = "=0.1.1"
nrfxlib-sys = "=0.1.6"
