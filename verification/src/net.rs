//! Sockets and interfaces: the values that the operating system is handed.

use vstd::prelude::*;
use crate::routing::commands::Platform;

pub mod metric;

use metric::Family;

verus! {

/// The interface index as a socket option takes it.
#[derive(Debug, Clone, Copy, PartialEq, Eq)]
pub enum InterfaceOption {
    /// In network byte order.
    NetworkOrder([u8; 4]),
    /// As the host holds it.
    HostOrder(u32),
}

/// The value that binds a socket to an interface. Windows takes the index in network
/// byte order for IPv4 and as the host holds it for IPv6; macOS takes it as the host
/// holds it for both.
pub fn interface_option(platform: Platform, family: Family, index: u32) -> (r: InterfaceOption)
    ensures
        if platform is Windows && family is V4 {
            r matches InterfaceOption::NetworkOrder(b) && index == 0x1000000 * b@[0] + 0x10000 * b@[1] + 0x100 * b@[2]
                + b@[3]
        } else {
            r == InterfaceOption::HostOrder(index)
        },
{
    match (platform, family) {
        (Platform::Windows, Family::V4) => {
            let b: [u8; 4] = [
                (index / 0x1000000) as u8,
                (index / 0x10000 % 0x100) as u8,
                (index / 0x100 % 0x100) as u8,
                (index % 0x100) as u8,
            ];
            InterfaceOption::NetworkOrder(b)
        }
        _ => InterfaceOption::HostOrder(index),
    }
}

} // verus!
