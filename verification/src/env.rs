//! What to make of a variable of the environment, once it was looked up.
//!
//! Looking a variable up, and turning its text into a value, is done by the
//! caller, who reports how that went. What counts as success, and which
//! error each failure is, is decided here.

use crate::config::shard::Positive;
use crate::parse::{
    parse_bool, parse_positive, parse_u16, parse_u64, spec_parse_bool, spec_parse_unsigned,
};
use vstd::prelude::*;
use vstd::string::StringExecFns;

verus! {

/// Why a variable could not be had.
#[derive(Clone, Copy, Debug)]
pub enum Error {
    /// The environment could not be read.
    GetFailed,
    /// The variable of this name is set, but its text is no value of the
    /// kind that was asked for.
    Parse(&'static str),
    /// The variable of this name is required and not set.
    NotPresent(&'static str),
}

impl Error {
    /// The error in words, the name of the variable between quotes.
    pub fn message(&self) -> (text: String)
        ensures
            text@ == (match *self {
                Error::GetFailed => "Failed to get environment variables"@,
                Error::Parse(key) => "Failed to parse \""@ + key@ + "\""@,
                Error::NotPresent(key) => "\""@ + key@ + "\" is required"@,
            }),
    {
        match self {
            Error::GetFailed => String::from_str("Failed to get environment variables"),
            Error::Parse(key) => {
                let mut text = String::from_str("Failed to parse \"");
                text.append(key);
                text.append("\"");
                text
            },
            Error::NotPresent(key) => {
                let mut text = String::from_str("\"");
                text.append(key);
                text.append("\" is required");
                text
            },
        }
    }
}

/// How looking up a variable went.
pub enum Lookup {
    /// The variable is set to this text.
    Found(String),
    /// The variable is not set.
    NotPresent,
    /// The environment could not be read.
    Failed,
}

/// How looking up a variable and reading its text as a value went.
pub enum Parsed<T> {
    /// The variable is set, and its text is this value.
    Value(T),
    /// The variable is set, but its text is no value of the kind.
    Unparsable,
    /// The variable is not set.
    NotPresent,
    /// The environment could not be read.
    Failed,
}

/// How reading a variable went, from how looking it up went and from the
/// value that its text stands for, if it was found and stands for one.
pub open spec fn spec_parsed<T>(lookup: Lookup, value: Option<T>) -> Parsed<T> {
    match lookup {
        Lookup::Found(_) => match value {
            Some(read) => Parsed::Value(read),
            None => Parsed::Unparsable,
        },
        Lookup::NotPresent => Parsed::NotPresent,
        Lookup::Failed => Parsed::Failed,
    }
}

/// The text of a variable that was found.
pub open spec fn found_text(lookup: Lookup) -> Seq<char> {
    match lookup {
        Lookup::Found(text) => text@,
        _ => Seq::empty(),
    }
}

/// Reads the text of a variable as a switch.
pub fn parsed_bool(lookup: Lookup) -> (parsed: Parsed<bool>)
    ensures
        parsed == spec_parsed(lookup, spec_parse_bool(found_text(lookup))),
{
    match lookup {
        Lookup::Found(text) => match parse_bool(text.as_str()) {
            Some(read) => Parsed::Value(read),
            None => Parsed::Unparsable,
        },
        Lookup::NotPresent => Parsed::NotPresent,
        Lookup::Failed => Parsed::Failed,
    }
}

/// Reads the text of a variable as a number of 64 bits.
pub fn parsed_u64(lookup: Lookup) -> (parsed: Parsed<u64>)
    ensures
        parsed == spec_parsed(
            lookup,
            match spec_parse_unsigned(found_text(lookup), u64::MAX as nat) {
                Some(number) => Some(number as u64),
                None => None,
            },
        ),
{
    match lookup {
        Lookup::Found(text) => match parse_u64(text.as_str()) {
            Some(read) => Parsed::Value(read),
            None => Parsed::Unparsable,
        },
        Lookup::NotPresent => Parsed::NotPresent,
        Lookup::Failed => Parsed::Failed,
    }
}

/// Reads the text of a variable as a number of 16 bits.
pub fn parsed_u16(lookup: Lookup) -> (parsed: Parsed<u16>)
    ensures
        parsed == spec_parsed(
            lookup,
            match spec_parse_unsigned(found_text(lookup), u16::MAX as nat) {
                Some(number) => Some(number as u16),
                None => None,
            },
        ),
{
    match lookup {
        Lookup::Found(text) => match parse_u16(text.as_str()) {
            Some(read) => Parsed::Value(read),
            None => Parsed::Unparsable,
        },
        Lookup::NotPresent => Parsed::NotPresent,
        Lookup::Failed => Parsed::Failed,
    }
}

/// Reads the text of a variable as a count that is not zero.
pub fn parsed_positive(lookup: Lookup) -> (parsed: Parsed<Positive>)
    ensures
        lookup is NotPresent ==> parsed is NotPresent,
        lookup is Failed ==> parsed is Failed,
        lookup is Found ==> (match spec_parse_unsigned(found_text(lookup), u64::MAX as nat) {
            Some(number) => if number == 0 {
                parsed is Unparsable
            } else {
                parsed matches Parsed::Value(count) && count.get() == number
            },
            None => parsed is Unparsable,
        }),
{
    match lookup {
        Lookup::Found(text) => match parse_positive(text.as_str()) {
            Some(read) => Parsed::Value(read),
            None => Parsed::Unparsable,
        },
        Lookup::NotPresent => Parsed::NotPresent,
        Lookup::Failed => Parsed::Failed,
    }
}

/// An optional variable: a variable that is not set is no error.
pub fn var(lookup: Lookup) -> (value: Result<Option<String>, Error>)
    ensures
        lookup matches Lookup::Found(text) ==> value == Ok::<Option<String>, Error>(Some(text)),
        lookup is NotPresent ==> value == Ok::<Option<String>, Error>(None),
        lookup is Failed ==> value == Err::<Option<String>, Error>(Error::GetFailed),
{
    match lookup {
        Lookup::Found(text) => Ok(Some(text)),
        Lookup::NotPresent => Ok(None),
        Lookup::Failed => Err(Error::GetFailed),
    }
}

/// A required variable: a variable that is not set is an error that names
/// it.
pub fn required_var(key: &'static str, lookup: Lookup) -> (value: Result<String, Error>)
    ensures
        lookup matches Lookup::Found(text) ==> value == Ok::<String, Error>(text),
        lookup is NotPresent ==> value == Err::<String, Error>(Error::NotPresent(key)),
        lookup is Failed ==> value == Err::<String, Error>(Error::GetFailed),
{
    match lookup {
        Lookup::Found(text) => Ok(text),
        Lookup::NotPresent => Err(Error::NotPresent(key)),
        Lookup::Failed => Err(Error::GetFailed),
    }
}

/// An optional variable that holds a value: a variable that is not set is
/// no error, one whose text is no value is an error that names it.
pub fn var_parse<T>(key: &'static str, parsed: Parsed<T>) -> (value: Result<Option<T>, Error>)
    ensures
        parsed matches Parsed::Value(read) ==> value == Ok::<Option<T>, Error>(Some(read)),
        parsed is Unparsable ==> value == Err::<Option<T>, Error>(Error::Parse(key)),
        parsed is NotPresent ==> value == Ok::<Option<T>, Error>(None),
        parsed is Failed ==> value == Err::<Option<T>, Error>(Error::GetFailed),
{
    match parsed {
        Parsed::Value(read) => Ok(Some(read)),
        Parsed::Unparsable => Err(Error::Parse(key)),
        Parsed::NotPresent => Ok(None),
        Parsed::Failed => Err(Error::GetFailed),
    }
}

/// A required variable that holds a value: a variable that is not set, or
/// whose text is no value, is an error that names it.
pub fn required_var_parse<T>(key: &'static str, parsed: Parsed<T>) -> (value: Result<T, Error>)
    ensures
        parsed matches Parsed::Value(read) ==> value == Ok::<T, Error>(read),
        parsed is Unparsable ==> value == Err::<T, Error>(Error::Parse(key)),
        parsed is NotPresent ==> value == Err::<T, Error>(Error::NotPresent(key)),
        parsed is Failed ==> value == Err::<T, Error>(Error::GetFailed),
{
    match parsed {
        Parsed::Value(read) => Ok(read),
        Parsed::Unparsable => Err(Error::Parse(key)),
        Parsed::NotPresent => Err(Error::NotPresent(key)),
        Parsed::Failed => Err(Error::GetFailed),
    }
}

} // verus!
