[package]
name = "rtnetlink"
version = "0.1.0"
edition = "2021"
publish = false

[dependencies]
futures = { version = "=0.3.34", features = ["thread-pool"] }
netlink-packet-core = "=0.7.0"
netlink-packet-route = "=0.19.0"
netlink-proto = { version = "=0.11.5", default-features = false, features = ["smol_socket", "tokio_socket"] }
