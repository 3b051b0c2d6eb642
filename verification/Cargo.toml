[package]
name = "packet_parser"
version = "0.1.0"
edition = "2021"
publish = false

[dependencies]
smallvec = "*"
pcap = "*"
thiserror = "*"

[dev-dependencies]
pnet = "*"
allocation-counter = "*"
