[package]
name = "threadmill"
version = "0.1.0"
edition = "2021"
publish = false

[dependencies]
flume = "0.11"
rand = "0.8"
num_cpus = "1"
parking_lot = "0.12"
futures-task = "0.3"
log = "0.4"
