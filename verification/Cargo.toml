[package]
name = "bytecode_vm"
version = "0.1.0"
edition = "2021"

[dependencies]
owo-colors = "*"
