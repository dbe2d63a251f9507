[package]
name = "amity"
version = "0.1.0"
edition = "2021"
publish = false

[dependencies]
lock_api = "0.4"
parking_lot = "0.12"
