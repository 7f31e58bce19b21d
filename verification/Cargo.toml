[package]
name = "canopen_node"
version = "0.1.0"
edition = "2021"

[dependencies]
hash32 = "=0.3.1"
heapless = "=0.9.3"
