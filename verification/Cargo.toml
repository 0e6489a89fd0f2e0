[package]
name = "lpc845_test_stand"
version = "0.1.0"
edition = "2021"
publish = false

[dependencies]
hash32 = "=0.3.1"
heapless = "=0.9.3"
serialport = { version = "=4.10.1", default-features = false }
