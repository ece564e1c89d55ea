[package]
name = "keystore"
version = "0.1.0"
edition = "2021"
publish = false

[dependencies]
aes-gcm = "0.10"
chrono = "0.4"
fastrand = "2"
hex = "0.4"
k256 = "0.13"
md5 = "0.7"
rand = "0.8"
rust-crypto = "0.2"
