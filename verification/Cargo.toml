[package]
name = "paa5100je_pmw3901"
version = "0.1.0"
edition = "2021"
publish = false

[dependencies]
bytemuck = "1"
embedded-hal-async = "1"
