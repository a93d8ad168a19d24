[package]
name = "sn_node"
version = "0.1.0"
edition = "2021"
publish = false

[dependencies]
bincode = "=1.3.3"
xor_name = "1"
sn_data_types = "=0.11.42"
sn_messaging = "=25.1.1"
