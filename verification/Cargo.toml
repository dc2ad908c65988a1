[package]
name = "raftstore_core"
version = "0.1.0"
edition = "2021"
publish = false

[dependencies]
time = "0.1"
protobuf = "2"
raft = "0.7"
