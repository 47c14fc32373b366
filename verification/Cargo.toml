[package]
name = "gqa_l9"
version = "0.1.0"
edition = "2021"
publish = false

[dependencies]
reqwest = "=0.9.24"
static-http-cache = "=0.2.0"
directories = "=1.0.2"
crossbeam = "=0.2.12"
core-foundation = "=0.10.1"
core-foundation-sys = "=0.8.7"
security-framework-sys = "=2.17.0"
