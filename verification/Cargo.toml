[package]
name = "wasi_sockets"
version = "0.1.0"
edition = "2021"
publish = false

[dependencies]
cap-std = "1.0"
io-extras = "0.17"
io-lifetimes = "1.0"
rustix = { version = "0.37", features = ["net"] }
socket2 = "0.5"
system-interface = { version = "0.25", features = ["cap_std_impls"] }
