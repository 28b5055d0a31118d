[package]
name = "gpufetch"
version = "0.1.0"
edition = "2021"
publish = false

[dependencies]
pci-ids = "*"
clap = { version = "*", features = ["derive"] }
colored = "*"
term_size = "*"
