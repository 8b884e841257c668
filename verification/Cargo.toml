[package]
name = "token_wallet_backend"
version = "0.1.0"
edition = "2021"
publish = false

[dependencies]
ic-cdk = "0.13"
ic-cdk-macros = "*"
candid = "0.10"
