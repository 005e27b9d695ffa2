[package]
name = "transfer_hook"
version = "0.1.0"
edition = "2021"
publish = false

[dependencies]
anchor-lang = { version = "*", features = ["init-if-needed"] }
anchor-spl = "*"
spl-tlv-account-resolution = "*"
spl-transfer-hook-interface = "*"
spl-token-2022 = "*"
spl-pod = "*"
