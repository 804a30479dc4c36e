[package]
name = "llvm_rs"
version = "0.1.0"
edition = "2021"
publish = false

[dependencies]
cbox = "=0.3.0"
libc = "=0.2.191"
llvm-sys = { version = "=140.1.3", features = ["prefer-dynamic"] }
