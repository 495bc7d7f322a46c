[package]
name = "kernel"
version = "0.1.0"
edition = "2021"
publish = false

[dependencies]
x86_64 = { version = "=0.15.5", default-features = false, features = ["instructions"] }
spin = "=0.9.9"
bootloader_api = "=0.11.17"
pic8259 = { version = "=0.11.0", default-features = false, features = ["stable"] }
log = "=0.4.35"
volatile = "=0.2.7"
conquer-once = { version = "=0.4.0", default-features = false }
lazy_static = { version = "=1.5.1", features = ["spin_no_std"] }
futures-util = { version = "=0.3.34", default-features = false, features = ["alloc"] }
