[package]
name = "iotdb"
version = "0.1.0"
edition = "2021"
publish = false

[dependencies]
chrono = "*"
thrift = "*"
prettytable-rs = "*"
log = "*"
simplelog = "*"
mimalloc = "*"
