[package]
name = "virtio_sound"
version = "0.1.0"
edition = "2021"
publish = false

[dependencies]
bitflags = "=1.3.2"
log = "=0.4.34"
ostd = "=0.19.0"
spin = "=0.9.9"
