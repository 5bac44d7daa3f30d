[package]
name = "rvfm"
version = "0.1.0"
edition = "2021"
publish = false

[dependencies]
bytemuck = "=1.25.2"
parking_lot = "=0.12.5"
static_init = "=1.0.4"
lock_api = "=0.4.14"
