[package]
name = "drogue-device"
version = "0.1.0"
edition = "2021"
publish = false

[dependencies]
aes = "0.7"
cmac = "0.6"
ccm = "0.4"
p256 = { version = "0.10", default-features = false, features = ["arithmetic", "ecdh"] }
heapless = "0.7"
uluru = "3"
rand_core = "0.6"
