[package]
name = "vm_isa"
version = "0.1.0"
edition = "2021"

[dependencies]
thiserror = "1"
