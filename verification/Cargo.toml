[package]
name = "uefi_var_monitor"
version = "0.1.0"
edition = "2021"
publish = false

[dependencies]
r-efi = "=7.1.0"
atomic_refcell = "=0.1.14"
x86_64 = { version = "=0.15.5", default-features = false, features = ["instructions"] }
