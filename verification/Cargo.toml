[package]
name = "mesatee_kms"
version = "0.1.0"
edition = "2021"
publish = false

[dependencies]
rand = "=0.8.8"
uuid = { version = "=1.29.1", features = ["v4"] }
sgx_types = "=1.1.1"
sgx_tcrypto = "=1.1.1"
sgx_tse = "=1.1.1"
sgx_rand = "=1.1.1"
