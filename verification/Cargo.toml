[package]
name = "rustc_codegen_spirv"
version = "0.1.0"
edition = "2021"
publish = false

[dependencies]
rspirv = "0.12"
spirt = "*"
smallvec = "1"
itertools = "*"
serde_json = "1"
getopts = "0.2"
