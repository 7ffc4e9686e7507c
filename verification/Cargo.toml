[package]
name = "pay_to_view"
version = "0.1.0"
edition = "2021"
publish = false

[dependencies]
soroban-sdk = "22"
