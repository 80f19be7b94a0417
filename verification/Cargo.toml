[package]
name = "pimoroni-badger2040"
version = "0.1.0"
edition = "2021"
publish = false

[dependencies]
cortex-m = "0.7"
cortex-m-rt = "0.7"
critical-section = { version = "1.1", features = ["std"] }
embedded-hal = { version = "0.2.7", features = ["unproven"] }
nb = "1"
rp2040-boot2 = "0.2"
rp2040-pac = "0.3"
