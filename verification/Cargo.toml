[package]
name = "ibc_translator"
version = "0.1.0"
edition = "2021"
publish = false

[dependencies]
hex = "0.4"
parity-scale-codec = "3"
tendermint = "0.32"

[dev-dependencies]
ibc-proto = "0.41"
prost = "0.12"
