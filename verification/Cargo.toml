[package]
name = "rlibphonenumber"
version = "0.1.0"
edition = "2021"
publish = false

[dependencies]
dashmap = "6"
dec_from_char = "*"
itoa = "1"
protobuf = "3"
regex = "1"
thiserror = "2"
