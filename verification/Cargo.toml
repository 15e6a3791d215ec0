[package]
name = "wgse_meta"
version = "0.1.0"
edition = "2021"
publish = false

[dependencies]
anyhow = "1"
base64 = "0.22"
convert_case = "0.6"
proc-macro2 = "1"
quote = "1"
serde_json = "1"
syn = { version = "2", features = ["full"] }
walkdir = "2"
