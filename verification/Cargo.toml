[package]
name = "maikor_debugger"
version = "0.1.0"
edition = "2021"
publish = false

[dependencies]
maikor-asm-parser = "=0.1.10"
maikor-platform = "=0.1.27"
maikor-vm-core = "=0.1.15"
crossterm = "=0.29.0"
