[package]
name = "create2crunch"
version = "0.1.0"
edition = "2021"
publish = false

[dependencies]
alloy-primitives = { version = "*", features = ["rand"] }
tiny-keccak = { version = "2.0", features = ["keccak"] }
fs4 = "*"
ocl = "0.19"
rand = "0.8"
rayon = "1"
