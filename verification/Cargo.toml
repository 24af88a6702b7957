[package]
name = "ecdump"
version = "0.1.0"
edition = "2021"
publish = false

[dependencies]
anyhow = "*"
bytes = "*"
chrono = "*"
clap = { version = "*", features = ["derive"] }
console = "*"
crossbeam-channel = "*"
ctrlc = "*"
fern = { version = "*", features = ["colored"] }
log = "*"
netdev = "*"
pcap-file = "*"
pnet = "*"
