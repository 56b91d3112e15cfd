[package]
name = "dhcp_client"
version = "0.1.0"
edition = "2021"
publish = false

[dependencies]
rand = "0.8"
pnet = "*"
rtnetlink = "0.11"
tokio = { version = "1", features = ["rt-multi-thread", "macros"] }
futures = "0.3"
clap = { version = "4", features = ["derive"] }
