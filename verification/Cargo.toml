[package]
name = "vm_agent"
version = "0.1.0"
edition = "2021"
publish = false

[dependencies]
anyhow = "=1.0.104"
futures = "=0.3.34"
libc = "=0.2.191"
netlink-packet-route = "=0.19.0"
rtnetlink = "=0.14.1"
thiserror = "=1.0.69"
tokio = { version = "=1.54.1", features = ["macros", "rt-multi-thread"] }
tokio-vsock = "=0.4.0"
tracing = "=0.1.44"
tracing-subscriber = "=0.3.23"
