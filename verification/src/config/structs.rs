//! The settings that are read from a file.

use crate::config::defaults;
use crate::config::url::{shape_of, spec_shape_of_path, spec_url_path, UrlShape};
use crate::text::{replace_char, same_text, spec_replace_char};
use vstd::prelude::*;
use vstd::string::StringExecFns;

verus! {

/// A proxy to reach the bot's upstream through.
pub struct Proxy {
    url: String,
    use_http: bool,
}

impl Proxy {
    /// The address of the proxy.
    pub closed spec fn spec_url(&self) -> Seq<char> {
        self.url@
    }

    /// Whether the proxy is addressed in plaintext.
    pub closed spec fn spec_use_http(&self) -> bool {
        self.use_http
    }

    /// A proxy at `url`, addressed over TLS unless `use_http` says otherwise.
    pub fn new(url: String, use_http: Option<bool>) -> (proxy: Self)
        ensures
            proxy.spec_url() == url@,
            proxy.spec_use_http() == (use_http == Some(true)),
    {
        let use_http = match use_http {
            Some(set) => set,
            None => defaults::proxy_use_http(),
        };
        Proxy { url, use_http }
    }

    /// The address of the proxy.
    pub fn url(&self) -> (url: &str)
        ensures
            url@ == self.spec_url(),
    {
        self.url.as_str()
    }

    /// Whether the proxy is addressed in plaintext.
    pub fn use_http(&self) -> (on: bool)
        ensures
            on == self.spec_use_http(),
    {
        self.use_http
    }
}

/// What is wrong with the settings of a bot.
#[derive(Clone, Copy, Debug, PartialEq, Eq, Structural)]
pub enum ConfigFault {
    /// The address of the proxy is no URL.
    InvalidProxyUrl,
    /// The token is empty.
    EmptyToken,
}

impl ConfigFault {
    /// The setting at fault.
    pub fn field(&self) -> (name: &'static str)
        ensures
            name@ == (match *self {
                ConfigFault::InvalidProxyUrl => "bot.proxy.url"@,
                ConfigFault::EmptyToken => "bot.token"@,
            }),
    {
        match self {
            ConfigFault::InvalidProxyUrl => "bot.proxy.url",
            ConfigFault::EmptyToken => "bot.token",
        }
    }

    /// The fault in words.
    pub fn message(&self) -> (text: &'static str)
        ensures
            text@ == (match *self {
                ConfigFault::InvalidProxyUrl => "Invalid proxy URL"@,
                ConfigFault::EmptyToken => "Discord bot token must not be empty"@,
            }),
    {
        match self {
            ConfigFault::InvalidProxyUrl => "Invalid proxy URL",
            ConfigFault::EmptyToken => "Discord bot token must not be empty",
        }
    }

    /// The line of a report on the fault: the setting, a colon, and the
    /// fault in words.
    pub open spec fn spec_report_line(self) -> Seq<char> {
        match self {
            ConfigFault::InvalidProxyUrl => "bot.proxy.url"@ + ": "@ + "Invalid proxy URL"@,
            ConfigFault::EmptyToken => "bot.token"@ + ": "@
                + "Discord bot token must not be empty"@,
        }
    }

    /// Writes the line of a report on the fault.
    pub fn report_line(&self) -> (line: String)
        ensures
            line@ == self.spec_report_line(),
    {
        let mut line = String::from_str(self.field());
        line.append(": ");
        line.append(self.message());
        line
    }
}

/// The faults that were found in settings: one at least.
pub struct ValidatorReport {
    faults: Vec<ConfigFault>,
}

impl View for ValidatorReport {
    type V = Seq<ConfigFault>;

    /// The faults, in the order in which they were found.
    closed spec fn view(&self) -> Seq<ConfigFault> {
        self.faults@
    }
}

impl ValidatorReport {
    /// What the report is headed with.
    pub fn message(&self) -> (text: &'static str)
        ensures
            text@ == "Invalid given data"@,
    {
        "Invalid given data"
    }

    /// The faults, in the order in which they were found.
    pub fn faults(&self) -> (faults: &Vec<ConfigFault>)
        ensures
            faults@ == self@,
    {
        &self.faults
    }

    /// The lines of the report, one for each fault.
    pub fn lines(&self) -> (lines: Vec<String>)
        ensures
            lines@.len() == self@.len(),
            forall|at: int| 0 <= at < lines@.len() ==> (#[trigger] lines@[at])@
                == self@[at].spec_report_line(),
    {
        let mut lines: Vec<String> = Vec::new();
        let mut at: usize = 0;
        while at < self.faults.len()
            invariant
                at <= self.faults@.len(),
                lines@.len() == at,
                forall|done: int| 0 <= done < at ==> (#[trigger] lines@[done])@
                    == self.faults@[done].spec_report_line(),
            decreases self.faults@.len() - at,
        {
            lines.push(self.faults[at].report_line());
            at = at + 1;
        }
        lines
    }
}

/// The settings of a bot.
pub struct BotConfig {
    proxy: Option<Proxy>,
    reload_commands_on_start: bool,
    token: String,
}

impl BotConfig {
    /// The proxy of the bot.
    pub closed spec fn spec_proxy(&self) -> Option<Proxy> {
        self.proxy
    }

    /// Whether all commands are registered anew at startup.
    pub closed spec fn spec_reload_commands_on_start(&self) -> bool {
        self.reload_commands_on_start
    }

    /// The bot's token.
    pub closed spec fn spec_token(&self) -> Seq<char> {
        self.token@
    }

    /// The faults of the settings, that of the proxy first: a proxy whose
    /// address is no URL, and an empty token.
    pub open spec fn spec_faults(&self) -> Seq<ConfigFault> {
        let of_proxy = match self.spec_proxy() {
            Some(proxy) => if spec_shape_of_path(spec_url_path(proxy.spec_url())) is Invalid {
                seq![ConfigFault::InvalidProxyUrl]
            } else {
                Seq::empty()
            },
            None => Seq::empty(),
        };
        let of_token = if self.spec_token().len() == 0 {
            seq![ConfigFault::EmptyToken]
        } else {
            Seq::empty()
        };
        of_proxy + of_token
    }

    /// The settings of a bot. Commands are reloaded at startup only if that
    /// was asked for.
    pub fn new(token: String, proxy: Option<Proxy>, reload_commands_on_start: Option<bool>) -> (config:
        Self)
        ensures
            config.spec_token() == token@,
            config.spec_proxy() == proxy,
            config.spec_reload_commands_on_start() == (reload_commands_on_start == Some(true)),
    {
        let reload_commands_on_start = match reload_commands_on_start {
            Some(set) => set,
            None => defaults::reload_commands_on_start(),
        };
        BotConfig { proxy, reload_commands_on_start, token }
    }

    /// The proxy of the bot, if it has one.
    pub fn proxy(&self) -> (proxy: Option<&Proxy>)
        ensures
            proxy is Some <==> self.spec_proxy() is Some,
            proxy matches Some(inner) ==> self.spec_proxy() == Some(*inner),
    {
        match &self.proxy {
            Some(inner) => Some(inner),
            None => None,
        }
    }

    /// Whether all commands are registered anew at startup.
    pub fn reload_commands_on_start(&self) -> (on: bool)
        ensures
            on == self.spec_reload_commands_on_start(),
    {
        self.reload_commands_on_start
    }

    /// The bot's token.
    pub fn token(&self) -> (token: &str)
        ensures
            token@ == self.spec_token(),
    {
        self.token.as_str()
    }

    /// Finds the faults of the settings, and reports them if there are any.
    pub fn validate(&self) -> (verdict: Result<(), ValidatorReport>)
        ensures
            verdict is Ok <==> self.spec_faults().len() == 0,
            verdict matches Err(report) ==> report@ == self.spec_faults(),
    {
        let mut faults: Vec<ConfigFault> = Vec::new();
        if let Some(proxy) = &self.proxy {
            match shape_of(proxy.url()) {
                UrlShape::Invalid => {
                    faults.push(ConfigFault::InvalidProxyUrl);
                },
                _ => {},
            }
        }
        if self.token.as_str().unicode_len() == 0 {
            faults.push(ConfigFault::EmptyToken);
        }
        assert(faults@ =~= self.spec_faults());
        if faults.len() == 0 {
            Ok(())
        } else {
            Err(ValidatorReport { faults })
        }
    }
}

/// How much is logged, by name.
#[derive(Clone, Copy, Debug, PartialEq, Eq, Hash, Structural)]
pub enum LogLevel {
    Trace,
    Debug,
    Info,
    Warn,
    Error,
}

/// How much is logged: everything from a level up, or nothing.
#[derive(Clone, Copy, Debug, PartialEq, Eq, Structural)]
pub enum LevelFilter {
    Off,
    Error,
    Warn,
    Info,
    Debug,
    Trace,
}

impl LogLevel {
    /// The level of a name. The names are those of the levels in lower
    /// case; any other text names no level.
    pub open spec fn spec_from_name(name: Seq<char>) -> Option<LogLevel> {
        if name == "trace"@ {
            Some(LogLevel::Trace)
        } else if name == "debug"@ {
            Some(LogLevel::Debug)
        } else if name == "info"@ {
            Some(LogLevel::Info)
        } else if name == "warn"@ {
            Some(LogLevel::Warn)
        } else if name == "error"@ {
            Some(LogLevel::Error)
        } else {
            None
        }
    }

    /// Reads a level from its name.
    pub fn from_name(name: &str) -> (level: Option<LogLevel>)
        ensures
            level == Self::spec_from_name(name@),
    {
        if same_text(name, "trace") {
            Some(LogLevel::Trace)
        } else if same_text(name, "debug") {
            Some(LogLevel::Debug)
        } else if same_text(name, "info") {
            Some(LogLevel::Info)
        } else if same_text(name, "warn") {
            Some(LogLevel::Warn)
        } else if same_text(name, "error") {
            Some(LogLevel::Error)
        } else {
            None
        }
    }

    /// The filter that lets this level and the graver ones pass.
    pub fn filter(self) -> (filter: LevelFilter)
        ensures
            filter == spec_filter(Some(self)),
    {
        match self {
            LogLevel::Trace => LevelFilter::Trace,
            LogLevel::Debug => LevelFilter::Debug,
            LogLevel::Info => LevelFilter::Info,
            LogLevel::Warn => LevelFilter::Warn,
            LogLevel::Error => LevelFilter::Error,
        }
    }
}

/// The filter of a setting: that of its level, and nothing passes where no
/// level is set.
pub open spec fn spec_filter(level: Option<LogLevel>) -> LevelFilter {
    match level {
        Some(LogLevel::Trace) => LevelFilter::Trace,
        Some(LogLevel::Debug) => LevelFilter::Debug,
        Some(LogLevel::Info) => LevelFilter::Info,
        Some(LogLevel::Warn) => LevelFilter::Warn,
        Some(LogLevel::Error) => LevelFilter::Error,
        None => LevelFilter::Off,
    }
}

/// The settings of the log.
#[derive(Debug)]
pub struct LogConfig {
    color: bool,
    level: Option<LogLevel>,
}

impl LogConfig {
    /// Whether the log is coloured.
    pub closed spec fn spec_color(&self) -> bool {
        self.color
    }

    /// The level that is set.
    pub closed spec fn spec_level(&self) -> Option<LogLevel> {
        self.level
    }

    /// The settings of the log.
    pub fn new(color: bool, level: Option<LogLevel>) -> (config: Self)
        ensures
            config.spec_color() == color,
            config.spec_level() == level,
    {
        LogConfig { color, level }
    }

    /// Whether the log is coloured.
    pub fn color_enabled(&self) -> (on: bool)
        ensures
            on == self.spec_color(),
    {
        self.color
    }

    /// How much is logged.
    pub fn level(&self) -> (filter: LevelFilter)
        ensures
            filter == spec_filter(self.spec_level()),
    {
        match self.level {
            Some(level) => level.filter(),
            None => LevelFilter::Off,
        }
    }
}

impl Default for LogConfig {
    /// Without colour, and from the debug level up.
    fn default() -> (config: Self)
        ensures
            !config.spec_color(),
            config.spec_level() == Some(LogLevel::Debug),
    {
        LogConfig { color: false, level: Some(LogLevel::Debug) }
    }
}

/// The key of the settings that a variable of the environment stands for.
/// Two variables have keys of their own; in any other name each underscore
/// parts two levels of the key.
pub open spec fn spec_config_key(variable: Seq<char>) -> Seq<char> {
    if variable == "BOT_PROXY_USE_HTTP"@ {
        "bot.proxy.use_http"@
    } else if variable == "BOT_RELOAD_COMMANDS_ON_START"@ {
        "bot.reload_commands_on_start"@
    } else {
        spec_replace_char(variable, '_', '.')
    }
}

/// Computes the key of the settings that a variable of the environment
/// stands for.
pub fn config_key(variable: &str) -> (key: String)
    ensures
        key@ == spec_config_key(variable@),
{
    if same_text(variable, "BOT_PROXY_USE_HTTP") {
        String::from_str("bot.proxy.use_http")
    } else if same_text(variable, "BOT_RELOAD_COMMANDS_ON_START") {
        String::from_str("bot.reload_commands_on_start")
    } else {
        replace_char(variable, '_', '.')
    }
}

} // verus!
