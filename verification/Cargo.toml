[package]
name = "bbs_keys"
version = "0.1.0"
edition = "2021"
publish = false

[dependencies]
bbs = "*"
pairing-plus = "*"
jni = "*"
