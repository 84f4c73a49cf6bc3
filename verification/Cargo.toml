[package]
name = "lupin"
version = "0.1.0"
edition = "2021"
publish = false

[dependencies]
async-channel = "2"
async-broadcast = "0.7"
async-trait = "0.1"
futures-lite = "2"
zstd = "0.13"
