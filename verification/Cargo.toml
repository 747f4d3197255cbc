[package]
name = "kaam_connect"
version = "0.1.0"
edition = "2021"

[dependencies]
anchor-lang = "=0.31.2"
