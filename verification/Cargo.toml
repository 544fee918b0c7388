[package]
name = "ill_tx_checker"
version = "0.1.0"
edition = "2021"
publish = false

[dependencies]
byteorder = "=1.5.0"
ckb-chain-spec = "=0.101.8"
ckb-types = "=0.101.8"
ckb-vm = { version = "=0.22.2", default-features = false }
ckb-vm-definitions = "=0.22.2"
goblin = "=0.4.0"
