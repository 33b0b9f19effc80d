[package]
name = "ssd_flash_id"
version = "0.1.0"
edition = "2021"
publish = false

[dependencies]
libc = "*"
