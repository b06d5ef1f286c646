[package]
name = "universal_swap"
version = "0.1.0"
edition = "2021"
publish = false

[dependencies]
cosmwasm-std = "=1.5.11"
cw20 = "=1.1.2"
cw-utils = "=1.0.3"
oraiswap = "=1.0.1"
cw-storage-plus = "1.2"
cw-controllers = "1.1"
