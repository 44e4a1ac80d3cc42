[package]
name = "slime_ffi"
version = "0.1.0"
edition = "2021"
publish = false

[dependencies]
syn = { version = "2", features = ["full"] }
proc-macro2 = "1"
jni = "0.21"
once_cell = "1"
