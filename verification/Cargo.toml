[package]
name = "kernel"
version = "0.1.0"
edition = "2021"
publish = false

[dependencies]
raw-cpuid = "=11.6.0"
x86_64 = { version = "=0.15.5", default-features = false, features = ["instructions"] }
multiboot2 = "=0.28.0"
spin = "=0.12.3"
lazy_static = "=1.5.1"
rlibc = "=1.0.0"
once = "=0.3.4"
