[package]
name = "ccthw_ash_instance"
version = "0.1.0"
edition = "2021"
publish = false

[dependencies]
ash = "0.37"
indoc = "2"
log = "0.4"
thiserror = "1"
