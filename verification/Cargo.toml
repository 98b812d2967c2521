[package]
name = "tun-engine"
version = "0.1.0"
edition = "2021"
publish = false

[dependencies]
libc = "0.2"
serde = { version = "1", features = ["derive"] }
serde_json = "1"
socket2 = { version = "0.6", features = ["all"] }
tempfile = "3"
thiserror = "2"
tokio = { version = "1", features = ["net"] }
tokio-socks = "0.5"
tracing = "0.1"
windows = { version = "*", features = ["Win32_Foundation", "Win32_NetworkManagement_IpHelper", "Win32_NetworkManagement_Ndis", "Win32_Networking_WinSock"] }
