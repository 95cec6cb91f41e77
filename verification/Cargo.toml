[package]
name = "global_cell"
version = "0.1.0"
edition = "2021"
publish = false

[dependencies]
parking_lot = "0.12"
futures-util = "0.3"
futures-executor = "0.3"
