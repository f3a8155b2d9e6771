[package]
name = "zero_copy"
version = "0.1.0"
edition = "2021"
publish = false

[dependencies]
tokio = { version = "*", features = ["rt", "rt-multi-thread", "io-util", "macros", "fs"] }
tokio-pipe = "*"
libc = "*"
once_cell = "*"
cfg-if = "*"
flate2 = "*"
displaydoc = "*"

[dev-dependencies]
nix = "0.26"
tempfile = "*"
