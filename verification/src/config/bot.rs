//! The settings of the bot.

use crate::config::{as_deref, flag_beside, spec_flag_beside, str_of, text_of};
use vstd::prelude::*;

verus! {

/// The settings of the bot, as contracts see them.
pub struct BotView {
    pub gateway_proxy_url: Option<Seq<char>>,
    pub proxy_url: Option<Seq<char>>,
    pub proxy_use_http: bool,
    pub reload_commands_on_start: bool,
    pub token: Seq<char>,
}

/// The settings of the bot.
pub struct Bot {
    gateway_proxy_url: Option<String>,
    proxy_url: Option<String>,
    proxy_use_http: bool,
    reload_commands_on_start: bool,
    token: String,
}

impl View for Bot {
    type V = BotView;

    closed spec fn view(&self) -> BotView {
        BotView {
            gateway_proxy_url: text_of(self.gateway_proxy_url),
            proxy_url: text_of(self.proxy_url),
            proxy_use_http: self.proxy_use_http,
            reload_commands_on_start: self.reload_commands_on_start,
            token: self.token@,
        }
    }
}

impl Bot {
    /// The settings from what was read. Commands are reloaded at startup
    /// only if that was asked for. The proxy is addressed in plaintext only
    /// if there is a proxy and that was asked for.
    pub fn from_settings(
        token: String,
        reload_commands_on_start: Option<bool>,
        gateway_proxy_url: Option<String>,
        proxy_url: Option<String>,
        proxy_use_http: Option<bool>,
    ) -> (bot: Self)
        ensures
            bot@.token == token@,
            bot@.reload_commands_on_start == (reload_commands_on_start == Some(true)),
            bot@.gateway_proxy_url == text_of(gateway_proxy_url),
            bot@.proxy_url == text_of(proxy_url),
            bot@.proxy_use_http == spec_flag_beside(proxy_url, proxy_use_http),
    {
        let reload_commands_on_start = match reload_commands_on_start {
            Some(set) => set,
            None => false,
        };
        let proxy_use_http = flag_beside(&proxy_url, proxy_use_http);
        Bot { gateway_proxy_url, proxy_url, proxy_use_http, reload_commands_on_start, token }
    }

    /// Whether all commands are registered anew at startup.
    pub fn reload_commands_on_start(&self) -> (on: bool)
        ensures
            on == self@.reload_commands_on_start,
    {
        self.reload_commands_on_start
    }

    /// The address of the proxy to reach the gateway through, if any.
    pub fn gateway_proxy_url(&self) -> (url: Option<&str>)
        ensures
            str_of(url) == self@.gateway_proxy_url,
    {
        as_deref(&self.gateway_proxy_url)
    }

    /// The address of the proxy to reach the HTTP interface through, if any.
    pub fn proxy_url(&self) -> (url: Option<&str>)
        ensures
            str_of(url) == self@.proxy_url,
    {
        as_deref(&self.proxy_url)
    }

    /// Whether the proxy is addressed in plaintext.
    pub fn proxy_use_http(&self) -> (on: bool)
        ensures
            on == self@.proxy_use_http,
    {
        self.proxy_use_http
    }

    /// The bot's token.
    pub fn token(&self) -> (token: &str)
        ensures
            token@ == self@.token,
    {
        self.token.as_str()
    }
}

} // verus!
