[package]
name = "client"
version = "0.1.0"
edition = "2021"
publish = false

[dependencies]
kinode_process_lib = { version = "=0.9.7", default-features = false }
