[package]
name = "vote_contract"
version = "0.1.0"
edition = "2021"
publish = false

[dependencies]
bytecheck = "=0.6.12"
derive-hex = "=0.1.2"
dusk-bytes = "=0.1.7"
dusk-core = "=1.7.0"
rkyv = "=0.7.46"
