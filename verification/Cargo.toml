[package]
name = "lox_vm"
version = "0.1.0"
edition = "2021"
publish = false

[dependencies]
thiserror = "=1.0.69"
const_soft_float = "=0.1.4"
