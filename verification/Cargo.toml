[package]
name = "vmm"
version = "0.1.0"
edition = "2021"
publish = false

[dependencies]
vm-memory = { version = "*", features = ["backend-mmap"] }
kvm-ioctls = "*"
kvm-bindings = "*"
libc = "*"
epoll = "*"
vmm-sys-util = "*"
clap = { version = "*", features = ["derive"] }
