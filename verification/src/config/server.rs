//! The settings of the admission queue service.

use crate::config::{as_deref, flag_beside, spec_flag_beside, str_of, text_of};
use vstd::prelude::*;

verus! {

/// An address to listen on.
#[derive(Clone, Copy, Debug, PartialEq, Eq, Structural)]
pub enum HostAddr {
    /// The four bytes of an IPv4 address.
    V4(u8, u8, u8, u8),
    /// The eight groups of an IPv6 address.
    V6(u16, u16, u16, u16, u16, u16, u16, u16),
}

/// The port that the service listens on where none is set.
pub const DEFAULT_PORT: u16 = 3421;

/// The address that the service listens on where none is set: loopback.
pub open spec fn spec_default_host() -> HostAddr {
    HostAddr::V4(127, 0, 0, 1)
}

/// The address that the service listens on where none is set.
pub fn default_host() -> (host: HostAddr)
    ensures
        host == spec_default_host(),
{
    HostAddr::V4(127, 0, 0, 1)
}

/// The settings of the admission queue service, as contracts see them.
pub struct ServerView {
    pub host: HostAddr,
    pub port: u16,
    pub token: Option<Seq<char>>,
    pub proxy_url: Option<Seq<char>>,
    pub proxy_use_http: bool,
}

/// The settings of the admission queue service.
pub struct Server {
    host: HostAddr,
    port: u16,
    token: Option<String>,
    proxy_url: Option<String>,
    proxy_use_http: bool,
}

impl View for Server {
    type V = ServerView;

    closed spec fn view(&self) -> ServerView {
        ServerView {
            host: self.host,
            port: self.port,
            token: text_of(self.token),
            proxy_url: text_of(self.proxy_url),
            proxy_use_http: self.proxy_use_http,
        }
    }
}

impl Server {
    /// The settings from what was read. A missing address or port is the
    /// default one. The proxy is addressed in plaintext only if there is a
    /// proxy and that was asked for.
    pub fn from_settings(
        host: Option<HostAddr>,
        port: Option<u16>,
        token: Option<String>,
        proxy_url: Option<String>,
        proxy_use_http: Option<bool>,
    ) -> (server: Self)
        ensures
            server@.host == (match host {
                Some(set) => set,
                None => spec_default_host(),
            }),
            server@.port == (match port {
                Some(set) => set,
                None => DEFAULT_PORT,
            }),
            server@.token == text_of(token),
            server@.proxy_url == text_of(proxy_url),
            server@.proxy_use_http == spec_flag_beside(proxy_url, proxy_use_http),
    {
        let host = match host {
            Some(set) => set,
            None => default_host(),
        };
        let port = match port {
            Some(set) => set,
            None => DEFAULT_PORT,
        };
        let proxy_use_http = flag_beside(&proxy_url, proxy_use_http);
        Server { host, port, token, proxy_url, proxy_use_http }
    }

    /// The address to listen on.
    pub fn host(&self) -> (host: HostAddr)
        ensures
            host == self@.host,
    {
        self.host
    }

    /// The port to listen on.
    pub fn port(&self) -> (port: u16)
        ensures
            port == self@.port,
    {
        self.port
    }

    /// The credential for the upstream gateway, if one is set. With it the
    /// service learns its width from the gateway; without it the service has
    /// a single bucket.
    pub fn token(&self) -> (token: Option<&str>)
        ensures
            str_of(token) == self@.token,
    {
        as_deref(&self.token)
    }

    /// The address of the proxy to reach the upstream through, if any.
    pub fn proxy_url(&self) -> (url: Option<&str>)
        ensures
            str_of(url) == self@.proxy_url,
    {
        as_deref(&self.proxy_url)
    }

    /// Whether the proxy is addressed in plaintext.
    pub fn proxy_use_http(&self) -> (on: bool)
        ensures
            on == self@.proxy_use_http,
    {
        self.proxy_use_http
    }

    /// Whether the width is to be learnt from the upstream gateway: it is
    /// where a credential is set.
    pub fn discovers_width(&self) -> (discovers: bool)
        ensures
            discovers == self@.token is Some,
    {
        self.token.is_some()
    }
}

} // verus!
