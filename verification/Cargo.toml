[package]
name = "embassy-imxrt"
version = "0.1.0"
edition = "2021"
publish = false

[dependencies]
mimxrt600-fcb = "=0.2.2"
rand_core = "=0.6.4"
embassy-futures = "=0.1.2"
embassy-sync = "=0.8.0"
embassy-time = "=0.5.1"
mimxrt685s-pac = "=0.5.0"
