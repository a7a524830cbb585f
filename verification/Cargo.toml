[package]
name = "vhost_devices"
version = "0.1.0"
edition = "2021"
publish = false

[dependencies]
anyhow = "1"
epoll = "4"
io-uring = "*"
libc = "0.2"
log = "0.4"
seccompiler = "*"
vhost = { version = "*", features = ["vhost-user-frontend", "vhost-user-backend"] }
virtio-queue = "*"
vm-memory = { version = "*", features = ["backend-mmap", "backend-bitmap", "backend-atomic"] }
vmm-sys-util = "*"
