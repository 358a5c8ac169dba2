[package]
name = "kernel_core"
version = "0.1.0"
edition = "2021"
publish = false

[dependencies]
bit_field = "*"
log = "*"
pci_types = "*"
serde = { version = "*", features = ["derive"] }
spin = "*"
