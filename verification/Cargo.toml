[package]
name = "gametank-libretro"
version = "0.1.0"
edition = "2021"
publish = false

[dependencies]
libretro-rs = "0.1.3"
rtrb = "0.3.5"
