[package]
name = "rasm"
version = "0.1.0"
edition = "2021"
publish = false

[dependencies]
elf = "0.7"
libc = "0.2"
log = "0.4"
