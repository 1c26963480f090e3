[package]
name = "krew_wasm_sdk"
version = "0.1.0"
edition = "2021"
publish = false

[dependencies]
base64 = "0.13"
http = "0.2"
kube-conf = "*"
