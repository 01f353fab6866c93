[package]
name = "cross_platform_tun"
version = "0.1.0"
edition = "2021"
publish = false

[dependencies]
byteorder = "1"
bytes = "1"
libc = "0.2"
nix = { version = "0.27", features = ["ioctl"] }
thiserror = "1"
tokio = { version = "1", features = ["net"] }
tokio-util = { version = "0.7", features = ["codec"] }
