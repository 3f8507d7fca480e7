[package]
name = "require_unsafe_in_body"
version = "0.3.2"
edition = "2021"
publish = false

[dependencies]
proc-macro2 = { version = "=1.0.107", features = ["span-locations"] }
quote = "=1.0.47"
syn = { version = "=1.0.109", features = ["full"] }
