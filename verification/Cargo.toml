[package]
name = "memory_monitor"
version = "0.1.0"
edition = "2021"
publish = false

[dependencies]
anyhow = "1"
crosscurses = "*"
get_sys_info = "*"
