[package]
name = "lock_keys"
version = "0.1.0"
edition = "2021"
publish = false
