[package]
name = "apic"
version = "0.1.0"
edition = "2021"
publish = false

[dependencies]
volatile = "0.4"

[dev-dependencies]
bit_field = "0.10"
