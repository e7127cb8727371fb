[package]
name = "materializer_rpc"
version = "0.1.0"
edition = "2021"
publish = false

[dependencies]
http = "0.2"
prost = "0.7"
tonic = "0.4"
