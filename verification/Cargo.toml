[package]
name = "kernel_loader"
version = "0.1.0"
edition = "2021"
publish = false

[dependencies]
xmas-elf = "=0.10.0"
uefi = { version = "=0.41.0", features = ["alloc", "logger"] }
log = "=0.4.34"
