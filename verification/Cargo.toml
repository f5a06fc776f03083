[package]
name = "vpn_toggle"
version = "0.1.0"
edition = "2021"
publish = false

[dependencies]
futures-util = "=0.3.34"
log = "=0.4.34"
simple_logger = "=5.2.0"
tokio = { version = "=1.54.1", features = ["macros", "process", "rt-multi-thread"] }
zbus = { version = "=6.1.0", default-features = false, features = ["proxy", "tokio"] }
