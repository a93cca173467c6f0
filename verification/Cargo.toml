[package]
name = "sgx_quoteverify"
version = "0.1.0"
edition = "2021"
publish = false

[dependencies]
mc-sgx-core-sys-types = "*"
mc-sgx-dcap-types = "*"
mc-sgx-dcap-quoteverify-types = "*"
mc-sgx-dcap-quoteverify-sys = "*"
mc-sgx-util = "*"
