[package]
name = "petrolc"
version = "0.1.0"
edition = "2021"

[dependencies]
typed-arena = "2"
