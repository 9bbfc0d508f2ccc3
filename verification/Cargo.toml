[package]
name = "udp_client_stream"
version = "0.1.0"
edition = "2021"
publish = false

[dependencies]
futures = "0.1"
log = "0.4"
tokio = "0.1"
