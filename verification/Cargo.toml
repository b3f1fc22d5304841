[package]
name = "lean_base"
version = "0.1.0"
edition = "2021"
publish = false

[dependencies]
lean-sys = "*"
syn = { version = "2", features = ["full"] }
prettyplease = "0.2"
proc-macro2 = "1"
