[package]
name = "piv1"
version = "0.1.0"
edition = "2021"
publish = false

[dependencies]
anchor-lang = "0.32.1"
spl-token = "8"
