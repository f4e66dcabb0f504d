//! The settings of error reporting.

use crate::config::{as_deref, str_of, text_of};
use vstd::prelude::*;

verus! {

/// Why the settings of error reporting could not be had.
#[derive(Clone, Copy, Debug, PartialEq, Eq, Structural)]
pub enum SentryError {
    /// The settings could not be read.
    General,
    /// The address to report to is not one.
    InvalidDsn,
    /// The share of traces to sample is no number.
    InvalidSampleTrace,
    /// An address to report to is set, but no environment to report as.
    EnvRequired,
}

impl SentryError {
    /// The error in words.
    pub fn message(&self) -> (text: &'static str)
        ensures
            text@ == (match *self {
                SentryError::General => "Failed to load Sentry config"@,
                SentryError::InvalidDsn => "\"SENTRY_DSN\" must be a valid Sentry DSN value"@,
                SentryError::InvalidSampleTrace =>
                    "\"SENTRY_TRACES_SAMPLE_RATE\" must be a valid floating point"@,
                SentryError::EnvRequired =>
                    "\"SENTRY_ENV\" is required for enabling Sentry with \"SENTRY_DSN\""@,
            }),
    {
        match self {
            SentryError::General => "Failed to load Sentry config",
            SentryError::InvalidDsn => "\"SENTRY_DSN\" must be a valid Sentry DSN value",
            SentryError::InvalidSampleTrace =>
                "\"SENTRY_TRACES_SAMPLE_RATE\" must be a valid floating point",
            SentryError::EnvRequired =>
                "\"SENTRY_ENV\" is required for enabling Sentry with \"SENTRY_DSN\"",
        }
    }
}

/// Where errors are reported to, and as what environment.
pub struct Sentry {
    dsn: Option<String>,
    environment: Option<String>,
}

impl Sentry {
    /// The address to report to.
    pub closed spec fn spec_dsn(&self) -> Option<Seq<char>> {
        text_of(self.dsn)
    }

    /// The environment to report as.
    pub closed spec fn spec_environment(&self) -> Option<Seq<char>> {
        text_of(self.environment)
    }

    /// The settings from what was read. Without an address nothing is
    /// reported, and the environment does not count. With an address the
    /// environment is required.
    pub fn from_settings(dsn: Option<String>, environment: Option<String>) -> (made: Result<
        Self,
        SentryError,
    >)
        ensures
            made is Err <==> dsn is Some && environment is None,
            made matches Err(error) ==> error == SentryError::EnvRequired,
            made matches Ok(sentry) ==> sentry.spec_dsn() == text_of(dsn)
                && sentry.spec_environment() == (if dsn is Some {
                text_of(environment)
            } else {
                None
            }),
    {
        match dsn {
            None => Ok(Sentry { dsn: None, environment: None }),
            Some(address) => match environment {
                None => Err(SentryError::EnvRequired),
                Some(name) => Ok(Sentry { dsn: Some(address), environment: Some(name) }),
            },
        }
    }

    /// The address to report to, if reporting is on.
    pub fn dsn(&self) -> (dsn: Option<&str>)
        ensures
            str_of(dsn) == self.spec_dsn(),
    {
        as_deref(&self.dsn)
    }

    /// The environment to report as.
    pub fn environment(&self) -> (environment: Option<&str>)
        ensures
            str_of(environment) == self.spec_environment(),
    {
        as_deref(&self.environment)
    }

    /// Whether errors are reported at all.
    pub fn is_enabled(&self) -> (enabled: bool)
        ensures
            enabled == self.spec_dsn() is Some,
    {
        self.dsn.is_some()
    }
}

} // verus!
