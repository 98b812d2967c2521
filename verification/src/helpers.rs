//! Building blocks for routers.

pub mod socks5_udp;
