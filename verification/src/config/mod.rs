//! The settings of the programs, as they stand after reading.
//!
//! Reading the environment or a file is not done here. Each kind of
//! settings is built from the values that were read, and says what it does
//! with a value that is missing or does not fit.

pub mod bot;
pub mod defaults;
pub mod metrics;
pub mod sentry;
pub mod server;
pub mod shard;
pub mod structs;
pub mod url;

pub use self::bot::Bot;
pub use self::metrics::Metrics;
pub use self::sentry::{Sentry, SentryError};
pub use self::server::{HostAddr, Server};
pub use self::shard::{InvalidShardConfig, Positive, Shard, ShardConnectAmount};
pub use self::structs::{
    BotConfig, ConfigFault, LevelFilter, LogConfig, LogLevel, Proxy, ValidatorReport,
};

use vstd::prelude::*;

verus! {

/// The settings could not be loaded.
#[derive(Debug)]
pub struct LoadError;

impl LoadError {
    /// The error in words.
    pub fn message(&self) -> (text: &'static str)
        ensures
            text@ == "Failed to load configuration"@,
    {
        "Failed to load configuration"
    }
}

/// The text of an optional string.
pub open spec fn text_of(value: Option<String>) -> Option<Seq<char>> {
    match value {
        Some(text) => Some(text@),
        None => None,
    }
}

/// The text of an optional string slice.
pub open spec fn str_of(value: Option<&str>) -> Option<Seq<char>> {
    match value {
        Some(text) => Some(text@),
        None => None,
    }
}

/// Borrows an optional string as an optional slice of the same text.
pub fn as_deref(value: &Option<String>) -> (slice: Option<&str>)
    ensures
        str_of(slice) == text_of(*value),
{
    match value {
        Some(text) => Some(text.as_str()),
        None => None,
    }
}

/// A flag that counts only beside the value it belongs to: without the
/// value it is off, whatever was set, and with it it is what was set, and
/// off if nothing was.
pub open spec fn spec_flag_beside<T>(value: Option<T>, flag: Option<bool>) -> bool {
    value is Some && flag == Some(true)
}

/// Computes a flag that counts only beside the value it belongs to.
pub fn flag_beside<T>(value: &Option<T>, flag: Option<bool>) -> (on: bool)
    ensures
        on == spec_flag_beside(*value, flag),
{
    match (value, flag) {
        (Some(_), Some(set)) => set,
        _ => false,
    }
}

} // verus!
