//! What a setting is where none is given.

use crate::config::server::HostAddr;
use vstd::prelude::*;

verus! {

/// A proxy is addressed over TLS unless told otherwise.
pub fn proxy_use_http() -> (on: bool)
    ensures
        !on,
{
    false
}

/// Commands are not reloaded at startup unless told otherwise.
pub fn reload_commands_on_start() -> (on: bool)
    ensures
        !on,
{
    false
}

/// The metrics server listens on the loopback address.
pub fn metrics_host() -> (host: HostAddr)
    ensures
        host == HostAddr::V4(127, 0, 0, 1),
{
    HostAddr::V4(127, 0, 0, 1)
}

/// The metrics server listens on port 5000.
pub fn metrics_port() -> (port: u16)
    ensures
        port == 5000,
{
    5000
}

} // verus!
