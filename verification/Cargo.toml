[package]
name = "pwrite_stream"
version = "0.1.0"
edition = "2021"
publish = false

[dependencies]
libc = "0.2"
llvm-sys = { version = "*", features = ["no-llvm-linking", "disable-alltargets-init"] }
