[package]
name = "yaxpeax_riscv"
version = "0.1.0"
edition = "2021"
publish = false

[dependencies]
yaxpeax-arch = { version = "0.2", default-features = false }
serde = { version = "1", features = ["derive"] }
