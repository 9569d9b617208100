[package]
name = "fee_probe"
version = "0.1.0"
edition = "2021"
publish = false

[dependencies]
ic-cdk = "=0.20.3"
ic-cdk-timers = "=1.0.0"
candid = "=0.10.37"
serde = "*"
