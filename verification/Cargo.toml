[package]
name = "magma"
version = "0.1.0"
edition = "2021"
publish = false

[dependencies]
ash = "0.37"
winit = "0.26"
spirv-reflect = "0.2"
tobj = "3"
glam = "0.20"
log = "0.4"
syn = { version = "1", features = ["full", "extra-traits"] }
quote = "1"
proc-macro2 = "1"
darling = "0.13"
memoffset = "0.6"
