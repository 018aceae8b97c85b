[package]
name = "memory_manager"
version = "0.1.0"
edition = "2021"
publish = false

[dependencies]
arc-swap = "*"
kvm-bindings = "*"
kvm-ioctls = "*"
libc = "*"
vm-memory = { version = "*", features = ["backend-mmap"] }
