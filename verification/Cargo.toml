[package]
name = "packetline_reader"
version = "0.1.0"
edition = "2021"
publish = false

[dependencies]
gix-packetline = { version = "*", default-features = false, features = ["blocking-io"] }
async-trait = "*"
futures-io = "*"
