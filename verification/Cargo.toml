[package]
name = "picolibc"
version = "0.1.0"
edition = "2021"
publish = false

[dependencies]
hashbrown = "*"
spin = "*"
linux-errno = "*"
linux-syscall = "*"
