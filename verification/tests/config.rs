use kyoka::config::defaults;
use kyoka::config::server::{default_host, DEFAULT_PORT};
use kyoka::config::shard::{check_queuer_url, judge_queuer_path, judge_queuer_url};
use kyoka::config::structs::config_key;
use kyoka::config::url::{find_empty_segment, shape_of, shape_of_path, UrlShape};
use kyoka::config::{
    as_deref, flag_beside, Bot, BotConfig, ConfigFault, HostAddr, InvalidShardConfig, LevelFilter,
    LoadError, LogConfig, LogLevel, Metrics, Positive, Proxy, Sentry, SentryError, Server, Shard,
    ShardConnectAmount,
};

fn faults(config: BotConfig) -> Vec<ConfigFault> {
    match config.validate() {
        Ok(()) => Vec::new(),
        Err(report) => {
            assert!(!report.faults().is_empty());
            assert_eq!(report.message(), "Invalid given data");
            report.faults().clone()
        },
    }
}
use kyoka::env::{required_var, required_var_parse, var, var_parse, Error, Lookup, Parsed};
use kyoka::text::{replace_char, same_text};

fn positive(value: u64) -> Positive {
    Positive::new(value).unwrap()
}

fn bot() -> Bot {
    Bot::from_settings("token".to_string(), None, None, None, None)
}

#[test]
fn defaults_are_as_documented() {
    assert!(!defaults::proxy_use_http());
    assert!(!defaults::reload_commands_on_start());
    assert_eq!(defaults::metrics_port(), 5000);
    assert_eq!(defaults::metrics_host(), HostAddr::V4(127, 0, 0, 1));
    assert_eq!(DEFAULT_PORT, 3421);
    assert_eq!(default_host(), HostAddr::V4(127, 0, 0, 1));
    assert_eq!(LoadError.message(), "Failed to load configuration");
}

#[test]
fn optional_text_is_borrowed() {
    assert_eq!(as_deref(&None), None);
    assert_eq!(as_deref(&Some("abc".to_string())), Some("abc"));
}

#[test]
fn flag_counts_only_beside_its_value() {
    assert!(flag_beside(&Some(1), Some(true)));
    assert!(!flag_beside(&Some(1), Some(false)));
    assert!(!flag_beside(&Some(1), None));
    assert!(!flag_beside(&None::<u8>, Some(true)));
    assert!(!flag_beside(&None::<u8>, None));
}

#[test]
fn bot_settings_with_defaults() {
    let bot = Bot::from_settings("secret".to_string(), None, None, None, Some(true));
    assert_eq!(bot.token(), "secret");
    assert!(!bot.reload_commands_on_start());
    assert_eq!(bot.gateway_proxy_url(), None);
    assert_eq!(bot.proxy_url(), None);
    assert!(!bot.proxy_use_http());
}

#[test]
fn bot_settings_as_given() {
    let bot = Bot::from_settings(
        "secret".to_string(),
        Some(true),
        Some("ws://gateway".to_string()),
        Some("proxy:80".to_string()),
        Some(true),
    );
    assert_eq!(bot.token(), "secret");
    assert!(bot.reload_commands_on_start());
    assert_eq!(bot.gateway_proxy_url(), Some("ws://gateway"));
    assert_eq!(bot.proxy_url(), Some("proxy:80"));
    assert!(bot.proxy_use_http());
    let plain = Bot::from_settings("t".to_string(), Some(false), None, Some("p".to_string()), None);
    assert!(!plain.reload_commands_on_start());
    assert!(!plain.proxy_use_http());
}

#[test]
fn server_settings_with_defaults() {
    let server = Server::from_settings(None, None, None, None, Some(true));
    assert_eq!(server.host(), HostAddr::V4(127, 0, 0, 1));
    assert_eq!(server.port(), 3421);
    assert_eq!(server.token(), None);
    assert_eq!(server.proxy_url(), None);
    assert!(!server.proxy_use_http());
    assert!(!server.discovers_width());
}

#[test]
fn server_settings_as_given() {
    let server = Server::from_settings(
        Some(HostAddr::V4(0, 0, 0, 0)),
        Some(8080),
        Some("token".to_string()),
        Some("proxy:80".to_string()),
        Some(true),
    );
    assert_eq!(server.host(), HostAddr::V4(0, 0, 0, 0));
    assert_eq!(server.port(), 8080);
    assert_eq!(server.token(), Some("token"));
    assert_eq!(server.proxy_url(), Some("proxy:80"));
    assert!(server.proxy_use_http());
    assert!(server.discovers_width());
}

#[test]
fn metrics_settings() {
    let metrics = Metrics::from_settings(None, None);
    assert_eq!(metrics.host(), HostAddr::V4(127, 0, 0, 1));
    assert_eq!(metrics.port(), 3421);
    let metrics = Metrics::from_settings(Some(HostAddr::V6(0, 0, 0, 0, 0, 0, 0, 1)), Some(9000));
    assert_eq!(metrics.host(), HostAddr::V6(0, 0, 0, 0, 0, 0, 0, 1));
    assert_eq!(metrics.port(), 9000);
    assert!(Metrics::is_enabled(Ok(Some(true))));
    assert!(!Metrics::is_enabled(Ok(Some(false))));
    assert!(!Metrics::is_enabled(Ok(None)));
    assert!(!Metrics::is_enabled(Err(Error::Parse("METRICS_ENABLED"))));
    assert!(!Metrics::is_enabled(Err(Error::GetFailed)));
}

#[test]
fn sentry_needs_environment_beside_address() {
    let off = Sentry::from_settings(None, Some("prod".to_string())).ok().unwrap();
    assert!(!off.is_enabled());
    assert_eq!(off.dsn(), None);
    assert_eq!(off.environment(), None);
    let missing = Sentry::from_settings(Some("https://key@host/1".to_string()), None);
    assert_eq!(missing.err(), Some(SentryError::EnvRequired));
    let on = Sentry::from_settings(Some("https://key@host/1".to_string()), Some("prod".to_string()))
        .ok()
        .unwrap();
    assert!(on.is_enabled());
    assert_eq!(on.dsn(), Some("https://key@host/1"));
    assert_eq!(on.environment(), Some("prod"));
}

#[test]
fn sentry_errors_in_words() {
    assert_eq!(SentryError::General.message(), "Failed to load Sentry config");
    assert_eq!(
        SentryError::InvalidDsn.message(),
        "\"SENTRY_DSN\" must be a valid Sentry DSN value"
    );
    assert_eq!(
        SentryError::InvalidSampleTrace.message(),
        "\"SENTRY_TRACES_SAMPLE_RATE\" must be a valid floating point"
    );
    assert_eq!(
        SentryError::EnvRequired.message(),
        "\"SENTRY_ENV\" is required for enabling Sentry with \"SENTRY_DSN\""
    );
}

#[test]
fn positive_counts() {
    assert!(Positive::new(0).is_none());
    assert_eq!(positive(1).get(), 1);
    assert_eq!(positive(u64::MAX).get(), u64::MAX);
    assert_eq!(Positive::one().get(), 1);
}

#[test]
fn recommended_unless_switched_off() {
    assert!(ShardConnectAmount::uses_recommended(None));
    assert!(ShardConnectAmount::uses_recommended(Some(true)));
    assert!(!ShardConnectAmount::uses_recommended(Some(false)));
}

#[test]
fn manual_shards_within_total() {
    assert_eq!(
        ShardConnectAmount::manual(0, None, positive(1)),
        Ok(ShardConnectAmount::Manual { id: 0, amount: positive(1), total: positive(1) })
    );
    assert_eq!(
        ShardConnectAmount::manual(2, Some(positive(3)), positive(5)),
        Ok(ShardConnectAmount::Manual { id: 2, amount: positive(3), total: positive(5) })
    );
    assert_eq!(
        ShardConnectAmount::manual(0, Some(positive(5)), positive(5)),
        Ok(ShardConnectAmount::Manual { id: 0, amount: positive(5), total: positive(5) })
    );
    assert_eq!(
        ShardConnectAmount::manual(u64::MAX - 1, None, positive(u64::MAX)),
        Ok(ShardConnectAmount::Manual {
            id: u64::MAX - 1,
            amount: positive(1),
            total: positive(u64::MAX)
        })
    );
}

#[test]
fn manual_shards_faults() {
    assert_eq!(
        ShardConnectAmount::manual(0, Some(positive(6)), positive(5)),
        Err(InvalidShardConfig::AmountGtTotal)
    );
    assert_eq!(
        ShardConnectAmount::manual(9, Some(positive(6)), positive(5)),
        Err(InvalidShardConfig::AmountGtTotal)
    );
    assert_eq!(
        ShardConnectAmount::manual(5, None, positive(5)),
        Err(InvalidShardConfig::IdTooBig)
    );
    assert_eq!(
        ShardConnectAmount::manual(7, Some(positive(2)), positive(5)),
        Err(InvalidShardConfig::IdTooBig)
    );
    assert_eq!(
        ShardConnectAmount::manual(3, Some(positive(3)), positive(5)),
        Err(InvalidShardConfig::AmountTooMany)
    );
    assert_eq!(
        ShardConnectAmount::manual(1, Some(positive(5)), positive(5)),
        Err(InvalidShardConfig::AmountTooMany)
    );
    assert_eq!(
        ShardConnectAmount::manual(u64::MAX - 1, Some(positive(u64::MAX)), positive(u64::MAX)),
        Err(InvalidShardConfig::AmountTooMany)
    );
}

#[test]
fn manual_shards_range() {
    assert_eq!(ShardConnectAmount::UseRecommended.range(), None);
    let amount = ShardConnectAmount::manual(2, Some(positive(3)), positive(5)).unwrap();
    assert_eq!(amount.range(), Some((2, 5)));
}

#[test]
fn shard_faults_in_words() {
    assert_eq!(
        InvalidShardConfig::AmountGtTotal.message(),
        "\"SHARD_AMOUNT\" must not be greater than \"SHARD_TOTAL\""
    );
    assert_eq!(
        InvalidShardConfig::IdTooBig.message(),
        "\"SHARD_ID\" must not be greater than or equal to \"SHARD_TOTAL\""
    );
    assert_eq!(
        InvalidShardConfig::AmountTooMany.message(),
        "\"SHARD_AMOUNT\" cannot be fit with \"SHARD_TOTAL\" frm \"SHARD_ID\""
    );
    assert_eq!(
        InvalidShardConfig::InvalidQueuerUrl.message(),
        "\"SHARD_QUEUER_URL\" must be in URL form"
    );
    assert_eq!(
        InvalidShardConfig::EndsWithSlash.message(),
        "\"SHARD_QUEUER_URL\" must not end with `/`"
    );
}

#[test]
fn empty_segments_are_found() {
    assert!(find_empty_segment("/"));
    assert!(find_empty_segment("/a/"));
    assert!(find_empty_segment("//"));
    assert!(find_empty_segment("//a"));
    assert!(find_empty_segment("/a//b"));
    assert!(find_empty_segment("/a/b/"));
    assert!(!find_empty_segment("/a"));
    assert!(!find_empty_segment("/a/b"));
    assert!(!find_empty_segment("/queue/v1"));
    assert!(!find_empty_segment(""));
    assert!(!find_empty_segment("a/"));
    assert!(!find_empty_segment("text/plain,Hello//"));
    assert!(find_empty_segment("/é/"));
    assert!(!find_empty_segment("/é"));
}

#[test]
fn shape_from_path() {
    assert!(matches!(shape_of_path(None), UrlShape::Invalid));
    assert!(matches!(shape_of_path(Some("/")), UrlShape::EmptySegment));
    assert!(matches!(shape_of_path(Some("/a/")), UrlShape::EmptySegment));
    assert!(matches!(shape_of_path(Some("/a")), UrlShape::Sound));
    assert!(matches!(shape_of_path(Some("opaque")), UrlShape::Sound));
}

#[test]
fn shape_of_addresses() {
    assert!(matches!(shape_of("not a url"), UrlShape::Invalid));
    assert!(matches!(shape_of(""), UrlShape::Invalid));
    assert!(matches!(shape_of("/relative/path"), UrlShape::Invalid));
    assert!(matches!(shape_of("http://queue.local:3421"), UrlShape::EmptySegment));
    assert!(matches!(shape_of("http://queue.local:3421/"), UrlShape::EmptySegment));
    assert!(matches!(shape_of("http://queue.local/api/"), UrlShape::EmptySegment));
    assert!(matches!(shape_of("http://queue.local/api//v1"), UrlShape::EmptySegment));
    assert!(matches!(shape_of("http://queue.local/api"), UrlShape::Sound));
    assert!(matches!(shape_of("http://queue.local/api/v1?x=1/"), UrlShape::Sound));
    assert!(matches!(shape_of("data:text/plain,Hello"), UrlShape::Sound));
}

#[test]
fn queuer_url_is_judged() {
    assert_eq!(judge_queuer_url(UrlShape::Invalid), Err(InvalidShardConfig::InvalidQueuerUrl));
    assert_eq!(judge_queuer_url(UrlShape::EmptySegment), Err(InvalidShardConfig::EndsWithSlash));
    assert_eq!(judge_queuer_url(UrlShape::Sound), Ok(()));
    assert_eq!(judge_queuer_path(None), Err(InvalidShardConfig::InvalidQueuerUrl));
    assert_eq!(judge_queuer_path(Some("/x/")), Err(InvalidShardConfig::EndsWithSlash));
    assert_eq!(judge_queuer_path(Some("/x")), Ok(()));
    assert_eq!(check_queuer_url("queue"), Err(InvalidShardConfig::InvalidQueuerUrl));
    assert_eq!(check_queuer_url("http://queue/"), Err(InvalidShardConfig::EndsWithSlash));
    assert_eq!(check_queuer_url("http://queue/v1"), Ok(()));
}

#[test]
fn shard_settings() {
    let shard = Shard::from_settings(None, bot(), ShardConnectAmount::UseRecommended)
        .ok()
        .unwrap();
    assert_eq!(shard.queuer_url(), None);
    assert_eq!(shard.bot().token(), "token");
    assert_eq!(*shard.connect_amount(), ShardConnectAmount::UseRecommended);
    let amount = ShardConnectAmount::manual(1, None, positive(2)).unwrap();
    let shard = Shard::from_settings(Some("http://queue/v1".to_string()), bot(), amount)
        .ok()
        .unwrap();
    assert_eq!(shard.queuer_url(), Some("http://queue/v1"));
    assert_eq!(*shard.connect_amount(), amount);
    let refused =
        Shard::from_settings(Some("queue".to_string()), bot(), ShardConnectAmount::UseRecommended);
    assert_eq!(refused.err(), Some(InvalidShardConfig::InvalidQueuerUrl));
    let refused = Shard::from_settings(
        Some("http://queue/v1/".to_string()),
        bot(),
        ShardConnectAmount::UseRecommended,
    );
    assert_eq!(refused.err(), Some(InvalidShardConfig::EndsWithSlash));
}

#[test]
fn proxy_settings() {
    let proxy = Proxy::new("http://proxy".to_string(), None);
    assert_eq!(proxy.url(), "http://proxy");
    assert!(!proxy.use_http());
    assert!(Proxy::new("p".to_string(), Some(true)).use_http());
    assert!(!Proxy::new("p".to_string(), Some(false)).use_http());
}

#[test]
fn bot_config_settings() {
    let config = BotConfig::new("token".to_string(), None, None);
    assert_eq!(config.token(), "token");
    assert!(config.proxy().is_none());
    assert!(!config.reload_commands_on_start());
    let config = BotConfig::new(
        "token".to_string(),
        Some(Proxy::new("http://proxy/x".to_string(), Some(true))),
        Some(true),
    );
    assert!(config.reload_commands_on_start());
    assert_eq!(config.proxy().unwrap().url(), "http://proxy/x");
    assert!(config.proxy().unwrap().use_http());
}

#[test]
fn bot_config_faults() {
    assert!(BotConfig::new("token".to_string(), None, None).validate().is_ok());
    assert_eq!(faults(BotConfig::new("token".to_string(), None, None)), vec![]);
    assert_eq!(faults(BotConfig::new(String::new(), None, None)), vec![ConfigFault::EmptyToken]);
    let proxy = Proxy::new("no url".to_string(), None);
    assert_eq!(
        faults(BotConfig::new("token".to_string(), Some(proxy), None)),
        vec![ConfigFault::InvalidProxyUrl]
    );
    let proxy = Proxy::new("no url".to_string(), None);
    let both = BotConfig::new(String::new(), Some(proxy), None);
    assert_eq!(faults(both), vec![ConfigFault::InvalidProxyUrl, ConfigFault::EmptyToken]);
    let proxy = Proxy::new("no url".to_string(), None);
    let report = BotConfig::new(String::new(), Some(proxy), None).validate().err().unwrap();
    assert_eq!(
        report.lines(),
        vec![
            "bot.proxy.url: Invalid proxy URL".to_string(),
            "bot.token: Discord bot token must not be empty".to_string()
        ]
    );
    let proxy = Proxy::new("http://proxy:8080/".to_string(), None);
    assert!(BotConfig::new("token".to_string(), Some(proxy), None).validate().is_ok());
    assert_eq!(ConfigFault::EmptyToken.field(), "bot.token");
    assert_eq!(ConfigFault::EmptyToken.message(), "Discord bot token must not be empty");
    assert_eq!(ConfigFault::InvalidProxyUrl.field(), "bot.proxy.url");
    assert_eq!(ConfigFault::InvalidProxyUrl.message(), "Invalid proxy URL");
    assert_eq!(
        ConfigFault::EmptyToken.report_line(),
        "bot.token: Discord bot token must not be empty"
    );
    assert_eq!(ConfigFault::InvalidProxyUrl.report_line(), "bot.proxy.url: Invalid proxy URL");
}

#[test]
fn log_levels_by_name() {
    assert_eq!(LogLevel::from_name("trace"), Some(LogLevel::Trace));
    assert_eq!(LogLevel::from_name("debug"), Some(LogLevel::Debug));
    assert_eq!(LogLevel::from_name("info"), Some(LogLevel::Info));
    assert_eq!(LogLevel::from_name("warn"), Some(LogLevel::Warn));
    assert_eq!(LogLevel::from_name("error"), Some(LogLevel::Error));
    assert_eq!(LogLevel::from_name("Trace"), None);
    assert_eq!(LogLevel::from_name("off"), None);
    assert_eq!(LogLevel::from_name(""), None);
    assert_eq!(LogLevel::from_name("info "), None);
}

#[test]
fn log_settings() {
    let config = LogConfig::default();
    assert!(!config.color_enabled());
    assert_eq!(config.level(), LevelFilter::Debug);
    assert_eq!(LogConfig::new(true, None).level(), LevelFilter::Off);
    assert!(LogConfig::new(true, None).color_enabled());
    assert_eq!(LogConfig::new(false, Some(LogLevel::Trace)).level(), LevelFilter::Trace);
    assert_eq!(LogConfig::new(false, Some(LogLevel::Info)).level(), LevelFilter::Info);
    assert_eq!(LogConfig::new(false, Some(LogLevel::Warn)).level(), LevelFilter::Warn);
    assert_eq!(LogConfig::new(false, Some(LogLevel::Error)).level(), LevelFilter::Error);
    assert_eq!(LogLevel::Debug.filter(), LevelFilter::Debug);
}

#[test]
fn config_keys() {
    assert_eq!(config_key("BOT_PROXY_USE_HTTP"), "bot.proxy.use_http");
    assert_eq!(config_key("BOT_RELOAD_COMMANDS_ON_START"), "bot.reload_commands_on_start");
    assert_eq!(config_key("BOT_TOKEN"), "BOT.TOKEN");
    assert_eq!(config_key("LOG_LEVEL"), "LOG.LEVEL");
    assert_eq!(config_key("bot_proxy_use_http"), "bot.proxy.use.http");
    assert_eq!(config_key(""), "");
    assert_eq!(config_key("PLAIN"), "PLAIN");
}

#[test]
fn text_helpers() {
    assert!(same_text("abc", "abc"));
    assert!(!same_text("abc", "abd"));
    assert!(!same_text("abc", "ab"));
    assert!(same_text("", ""));
    assert_eq!(replace_char("a_b_c", '_', '.'), "a.b.c");
    assert_eq!(replace_char("___", '_', '-'), "---");
    assert_eq!(replace_char("héllo_wörld", '_', ' '), "héllo wörld");
    assert_eq!(replace_char("abc", 'x', 'y'), "abc");
}

#[test]
fn variables_of_the_environment() {
    assert!(matches!(var(Lookup::Found("x".to_string())), Ok(Some(text)) if text == "x"));
    assert!(matches!(var(Lookup::NotPresent), Ok(None)));
    assert!(matches!(var(Lookup::Failed), Err(Error::GetFailed)));
    assert!(matches!(required_var("KEY", Lookup::Found("x".to_string())), Ok(text) if text == "x"));
    assert!(matches!(required_var("KEY", Lookup::NotPresent), Err(Error::NotPresent("KEY"))));
    assert!(matches!(required_var("KEY", Lookup::Failed), Err(Error::GetFailed)));
    assert!(matches!(var_parse("KEY", Parsed::Value(5u16)), Ok(Some(5))));
    assert!(matches!(var_parse::<u16>("KEY", Parsed::Unparsable), Err(Error::Parse("KEY"))));
    assert!(matches!(var_parse::<u16>("KEY", Parsed::NotPresent), Ok(None)));
    assert!(matches!(var_parse::<u16>("KEY", Parsed::Failed), Err(Error::GetFailed)));
    assert!(matches!(required_var_parse("KEY", Parsed::Value(true)), Ok(true)));
    assert!(matches!(
        required_var_parse::<bool>("KEY", Parsed::Unparsable),
        Err(Error::Parse("KEY"))
    ));
    assert!(matches!(
        required_var_parse::<bool>("KEY", Parsed::NotPresent),
        Err(Error::NotPresent("KEY"))
    ));
    assert!(matches!(required_var_parse::<bool>("KEY", Parsed::Failed), Err(Error::GetFailed)));
}

#[test]
fn environment_errors_in_words() {
    assert_eq!(Error::GetFailed.message(), "Failed to get environment variables");
    assert_eq!(Error::Parse("SHARD_ID").message(), "Failed to parse \"SHARD_ID\"");
    assert_eq!(Error::NotPresent("SHARD_ID").message(), "\"SHARD_ID\" is required");
}
