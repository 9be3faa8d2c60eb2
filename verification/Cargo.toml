[package]
name = "hak"
version = "0.1.0"
edition = "2021"
publish = false

[dependencies]
spin = "=0.9.9"
owo-colors = "=3.5.0"
uart_16550 = "=0.3.2"
lazy_static = "=1.5.1"
bootloader = "=0.9.35"
clap = { version = "=3.2.25", features = ["derive"] }
xshell = "=0.1.17"
