[package]
name = "ruption_quantum_encrypt"
version = "0.1.0"
edition = "2021"
publish = false

[dependencies]
getrandom = "0.2"
sha3 = "0.10"
