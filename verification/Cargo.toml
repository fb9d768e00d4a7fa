[package]
name = "boot_rt"
version = "0.1.0"
edition = "2021"
publish = false

[dependencies]
cortex-m = "*"
cortex-m-semihosting = "*"
r0 = "*"
alloc-cortex-m = "*"
