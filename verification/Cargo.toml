[package]
name = "os_kernel"
version = "0.1.0"
edition = "2021"
publish = false

[dependencies]
riscv = "*"
lazy_static = { version = "1.4", features = ["spin_no_std"] }
log = "0.4"
