[package]
name = "climeta"
version = "0.1.0"
edition = "2021"
publish = false

[dependencies]
byteorder = "*"
elsa = "*"
memmap = "*"
num-derive = "*"
num-traits = "*"
owning_ref = "*"
stable_deref_trait = "*"
