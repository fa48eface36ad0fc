[package]
name = "lnp_node"
version = "0.1.0"
edition = "2021"
publish = false

[dependencies]
amplify = "=3.14.2"
bitcoin = "=0.29.2"
bitcoin_scripts = "=0.9.1"
internet2 = "=0.9.0"
lnp-core = "=0.9.2"
lnpbp = "=0.9.0"
