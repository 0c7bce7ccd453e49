[package]
name = "bitcoind"
version = "0.1.0"
edition = "2021"

[dependencies]
bitcoincore-rpc = "0.13"
log = "0.4"
tempfile = "3"
