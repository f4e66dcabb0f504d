//! The settings of the metrics server.

use crate::config::server::{default_host, spec_default_host, HostAddr, DEFAULT_PORT};
use crate::env::Error;
use vstd::prelude::*;

verus! {

/// The settings of the metrics server.
#[derive(Debug)]
pub struct Metrics {
    host: HostAddr,
    port: u16,
}

impl Metrics {
    /// The address to listen on.
    pub closed spec fn spec_host(&self) -> HostAddr {
        self.host
    }

    /// The port to listen on.
    pub closed spec fn spec_port(&self) -> u16 {
        self.port
    }

    /// Whether the metrics server is to run, from what reading the switch
    /// gave: only a switch that was read, and is on, turns it on.
    pub fn is_enabled(switch: Result<Option<bool>, Error>) -> (enabled: bool)
        ensures
            enabled == (switch matches Ok(Some(on)) && on),
    {
        match switch {
            Ok(Some(on)) => on,
            _ => false,
        }
    }

    /// The settings from what was read: a missing address or port is the
    /// default one.
    pub fn from_settings(host: Option<HostAddr>, port: Option<u16>) -> (metrics: Self)
        ensures
            metrics.spec_host() == (match host {
                Some(set) => set,
                None => spec_default_host(),
            }),
            metrics.spec_port() == (match port {
                Some(set) => set,
                None => DEFAULT_PORT,
            }),
    {
        let host = match host {
            Some(set) => set,
            None => default_host(),
        };
        let port = match port {
            Some(set) => set,
            None => DEFAULT_PORT,
        };
        Metrics { host, port }
    }

    /// The address to listen on.
    #[verifier::when_used_as_spec(spec_host)]
    pub fn host(&self) -> (host: HostAddr)
        ensures
            host == self.spec_host(),
    {
        self.host
    }

    /// The port to listen on.
    #[verifier::when_used_as_spec(spec_port)]
    pub fn port(&self) -> (port: u16)
        ensures
            port == self.spec_port(),
    {
        self.port
    }
}

} // verus!
