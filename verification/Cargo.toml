[package]
name = "demosuperimpose_goldsrc"
version = "0.1.0"
edition = "2021"
publish = false

[dependencies]
bitvec = "1"
hldemo = "*"
rand = "0.8"
