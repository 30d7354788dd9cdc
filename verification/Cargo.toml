[package]
name = "doh_gateway"
version = "0.1.0"
edition = "2021"
publish = false

[dependencies]
worker = "=0.8.7"
console_error_panic_hook = "=0.1.7"
