//! Split-tunnel routing and fail-closed firewall covers for a TUN engine.

pub mod error;
pub mod gateway;
pub mod helpers;
pub mod ip;
pub mod net;
pub mod reading;
pub mod routing;
pub mod text;
