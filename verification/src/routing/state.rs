//! The route-state file: which routes this host was given, so that the next start
//! can take back what a crash left behind.

use vstd::prelude::*;
use crate::ip::IpAddr;
use crate::routing::state_file::{removal_outcome, tolerate_absence, RemoveFailure, Stored};

verus! {

pub const SCHEMA_VERSION: u32 = 1;

pub const STATE_FILE_NAME: &'static str = "bridge-routes.json";

/// The routes of one run. It is written before any of them is added.
#[derive(Debug, Clone, PartialEq, Eq)]
pub struct RouteState {
    pub version: u32,
    pub tun_name: String,
    pub server_ip: IpAddr,
    /// The upstream interface of the server bypass.
    pub interface_name: String,
}

/// [`RouteState`] with its names as characters.
pub struct RouteStateView {
    pub version: u32,
    pub tun_name: Seq<char>,
    pub server_ip: IpAddr,
    pub interface_name: Seq<char>,
}

impl View for RouteState {
    type V = RouteStateView;

    open spec fn view(&self) -> RouteStateView {
        RouteStateView {
            version: self.version,
            tun_name: self.tun_name@,
            server_ip: self.server_ip,
            interface_name: self.interface_name@,
        }
    }
}

/// The recorded routes. A file that cannot be read, does not parse or has another
/// schema version counts as none.
pub fn load(stored: Stored<RouteState>) -> (r: Option<RouteState>)
    ensures
        r == match stored {
            Stored::Parsed(s) if s.version == SCHEMA_VERSION => Some(s),
            _ => None,
        },
{
    match stored {
        Stored::Parsed(s) => {
            if s.version == SCHEMA_VERSION {
                Some(s)
            } else {
                None
            }
        }
        _ => None,
    }
}

/// The outcome of clearing the file. That it was not there is no failure.
pub fn clear(removed: Result<(), RemoveFailure>) -> (r: Result<(), String>)
    ensures
        r == removal_outcome(removed),
{
    tolerate_absence(removed)
}

} // verus!
