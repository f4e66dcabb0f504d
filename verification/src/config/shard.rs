//! The settings of a process that runs shards.

use crate::config::bot::Bot;
use crate::config::url::{shape_of, shape_of_path, spec_shape_of_path, spec_url_path, UrlShape};
use crate::config::{as_deref, str_of, text_of};
use vstd::prelude::*;

verus! {

/// A count that is not zero.
#[derive(Clone, Copy, Debug, PartialEq, Eq, Structural)]
pub struct Positive {
    value: u64,
}

impl Positive {
    #[verifier::type_invariant]
    spec fn is_positive(self) -> bool {
        self.value >= 1
    }

    /// The count as a number.
    pub closed spec fn spec_get(self) -> u64 {
        self.value
    }

    /// The count of one.
    pub fn one() -> (count: Self)
        ensures
            count.spec_get() == 1,
    {
        Positive { value: 1 }
    }

    /// The count of `value`, unless that is zero.
    pub fn new(value: u64) -> (count: Option<Self>)
        ensures
            value == 0 <==> count is None,
            count matches Some(made) ==> made.spec_get() == value,
    {
        if value == 0 {
            None
        } else {
            Some(Positive { value })
        }
    }

    /// The count as a number, which is not zero.
    #[verifier::when_used_as_spec(spec_get)]
    pub fn get(self) -> (value: u64)
        ensures
            value == self.spec_get(),
            value >= 1,
    {
        proof {
            use_type_invariant(&self);
        }
        self.value
    }
}

/// What is wrong with the settings of the shards.
#[derive(Clone, Copy, Debug, PartialEq, Eq, Structural)]
pub enum InvalidShardConfig {
    /// More shards are to be connected than there are in total.
    AmountGtTotal,
    /// The first shard's id is not below the total.
    IdTooBig,
    /// The shards to be connected, counted from the first, go past the
    /// total.
    AmountTooMany,
    /// The address of the admission service is no URL.
    InvalidQueuerUrl,
    /// The address of the admission service has a path with an empty
    /// segment, as a path that ends in a slash has.
    EndsWithSlash,
}

impl InvalidShardConfig {
    /// The error in words.
    pub fn message(&self) -> (text: &'static str)
        ensures
            text@ == (match *self {
                InvalidShardConfig::AmountGtTotal =>
                    "\"SHARD_AMOUNT\" must not be greater than \"SHARD_TOTAL\""@,
                InvalidShardConfig::IdTooBig =>
                    "\"SHARD_ID\" must not be greater than or equal to \"SHARD_TOTAL\""@,
                InvalidShardConfig::AmountTooMany =>
                    "\"SHARD_AMOUNT\" cannot be fit with \"SHARD_TOTAL\" frm \"SHARD_ID\""@,
                InvalidShardConfig::InvalidQueuerUrl => "\"SHARD_QUEUER_URL\" must be in URL form"@,
                InvalidShardConfig::EndsWithSlash => "\"SHARD_QUEUER_URL\" must not end with `/`"@,
            }),
    {
        match self {
            InvalidShardConfig::AmountGtTotal =>
                "\"SHARD_AMOUNT\" must not be greater than \"SHARD_TOTAL\"",
            InvalidShardConfig::IdTooBig =>
                "\"SHARD_ID\" must not be greater than or equal to \"SHARD_TOTAL\"",
            InvalidShardConfig::AmountTooMany =>
                "\"SHARD_AMOUNT\" cannot be fit with \"SHARD_TOTAL\" frm \"SHARD_ID\"",
            InvalidShardConfig::InvalidQueuerUrl => "\"SHARD_QUEUER_URL\" must be in URL form",
            InvalidShardConfig::EndsWithSlash => "\"SHARD_QUEUER_URL\" must not end with `/`",
        }
    }
}

/// The hint that goes with an error in the settings of the shards.
pub const RECOMMENDED_SUGGESTION: &'static str =
    "Suggestion: If you want to use Discord's recommended amount of shards to connect, please set `SHARD_USE_RECOMMENDED` to true";

/// Which shards a process connects.
#[derive(Clone, Copy, Debug, PartialEq, Eq, Structural)]
pub enum ShardConnectAmount {
    /// As many as the gateway recommends, all in this process.
    UseRecommended,
    /// The shards from `id` on, `amount` of them, out of `total`.
    Manual {
        id: u64,
        /// How many shards this process connects.
        amount: Positive,
        /// How many shards there are in all processes together.
        total: Positive,
    },
}

/// What is wrong with a choice of shards, if anything, the first fault
/// first: more shards than the total, a first id that is not below the
/// total, or a last id that is not below the total.
pub open spec fn spec_manual_fault(id: u64, amount: u64, total: u64) -> Option<
    InvalidShardConfig,
> {
    if amount > total {
        Some(InvalidShardConfig::AmountGtTotal)
    } else if id >= total {
        Some(InvalidShardConfig::IdTooBig)
    } else if id + amount - 1 >= total {
        Some(InvalidShardConfig::AmountTooMany)
    } else {
        None
    }
}

impl ShardConnectAmount {
    /// Whether the recommended shards are used, from the switch as it was
    /// read: they are, unless the switch is set and off.
    pub fn uses_recommended(switch: Option<bool>) -> (recommended: bool)
        ensures
            recommended == (switch != Some(false)),
    {
        match switch {
            Some(set) => set,
            None => true,
        }
    }

    /// A choice of shards by hand: those from `id` on, `amount` of them (one
    /// where no amount is given), out of `total`. The choice is refused
    /// unless all of its shards have ids below the total.
    pub fn manual(id: u64, amount: Option<Positive>, total: Positive) -> (made: Result<
        Self,
        InvalidShardConfig,
    >)
        ensures
            ({
                let wanted = match amount {
                    Some(given) => given.get(),
                    None => 1,
                };
                match spec_manual_fault(id, wanted, total.get()) {
                    Some(fault) => made == Err::<Self, InvalidShardConfig>(fault),
                    None => made matches Ok(ShardConnectAmount::Manual {
                        id: made_id,
                        amount: made_amount,
                        total: made_total,
                    }) && made_id == id && made_amount.get() == wanted && made_total == total,
                }
            }),
    {
        let amount = match amount {
            Some(given) => given,
            None => Positive::one(),
        };
        if amount.get() > total.get() {
            return Err(InvalidShardConfig::AmountGtTotal);
        }
        if id >= total.get() {
            return Err(InvalidShardConfig::IdTooBig);
        }
        if amount.get() - 1 >= total.get() - id {
            return Err(InvalidShardConfig::AmountTooMany);
        }
        Ok(ShardConnectAmount::Manual { id, amount, total })
    }

    /// The ids of the shards of a choice by hand: the first, and the one
    /// behind the last. There are none to tell for the recommended shards.
    pub fn range(&self) -> (range: Option<(u64, u64)>)
        ensures
            *self is UseRecommended ==> range is None,
            *self matches ShardConnectAmount::Manual { id, amount, total } ==> (if id
                + amount.get() <= u64::MAX {
                range == Some((id, (id + amount.get()) as u64))
            } else {
                range is None
            }),
    {
        match self {
            ShardConnectAmount::UseRecommended => None,
            ShardConnectAmount::Manual { id, amount, .. } => match id.checked_add(amount.get()) {
                Some(end) => Some((*id, end)),
                None => None,
            },
        }
    }
}

/// What is wrong with the address of the admission service, from the shape
/// that parsing it gave.
pub open spec fn spec_queuer_url_fault(shape: UrlShape) -> Option<InvalidShardConfig> {
    match shape {
        UrlShape::Invalid => Some(InvalidShardConfig::InvalidQueuerUrl),
        UrlShape::EmptySegment => Some(InvalidShardConfig::EndsWithSlash),
        UrlShape::Sound => None,
    }
}

/// Judges the address of the admission service by the shape that parsing it
/// gave: it must be a URL, and no segment of its path may be empty.
pub fn judge_queuer_url(shape: UrlShape) -> (verdict: Result<(), InvalidShardConfig>)
    ensures
        verdict == (match spec_queuer_url_fault(shape) {
            Some(fault) => Err::<(), InvalidShardConfig>(fault),
            None => Ok::<(), InvalidShardConfig>(()),
        }),
{
    match shape {
        UrlShape::Invalid => Err(InvalidShardConfig::InvalidQueuerUrl),
        UrlShape::EmptySegment => Err(InvalidShardConfig::EndsWithSlash),
        UrlShape::Sound => Ok(()),
    }
}

/// Judges the address of the admission service by the path that parsing it
/// gave, or by its lack where the address did not parse.
pub fn judge_queuer_path(path: Option<&str>) -> (verdict: Result<(), InvalidShardConfig>)
    ensures
        verdict == (match spec_queuer_url_fault(spec_shape_of_path(str_of(path))) {
            Some(fault) => Err::<(), InvalidShardConfig>(fault),
            None => Ok::<(), InvalidShardConfig>(()),
        }),
{
    judge_queuer_url(shape_of_path(path))
}

/// Parses and judges the address of the admission service.
pub fn check_queuer_url(address: &str) -> (verdict: Result<(), InvalidShardConfig>)
    ensures
        verdict == (match spec_queuer_url_fault(spec_shape_of_path(spec_url_path(address@))) {
            Some(fault) => Err::<(), InvalidShardConfig>(fault),
            None => Ok::<(), InvalidShardConfig>(()),
        }),
{
    judge_queuer_url(shape_of(address))
}

/// The settings of a process that runs shards.
pub struct Shard {
    bot: Bot,
    connect_amount: ShardConnectAmount,
    queuer_url: Option<String>,
}

impl Shard {
    /// The settings of the bot.
    pub closed spec fn spec_bot(&self) -> Bot {
        self.bot
    }

    /// Which shards the process connects.
    pub closed spec fn spec_connect_amount(&self) -> ShardConnectAmount {
        self.connect_amount
    }

    /// The address of the admission service.
    pub closed spec fn spec_queuer_url(&self) -> Option<Seq<char>> {
        text_of(self.queuer_url)
    }

    /// The settings from their parts. The address of the admission service,
    /// where there is one, must stand the test of `check_queuer_url`; the
    /// first fault found in it is the error.
    pub fn from_settings(
        queuer_url: Option<String>,
        bot: Bot,
        connect_amount: ShardConnectAmount,
    ) -> (made: Result<Self, InvalidShardConfig>)
        ensures
            ({
                let fault = match queuer_url {
                    Some(address) => spec_queuer_url_fault(
                        spec_shape_of_path(spec_url_path(address@)),
                    ),
                    None => None,
                };
                match fault {
                    Some(fault) => made matches Err(error) && error == fault,
                    None => made matches Ok(shard) && shard.spec_bot() == bot
                        && shard.spec_connect_amount() == connect_amount
                        && shard.spec_queuer_url() == text_of(queuer_url),
                }
            }),
    {
        if let Some(address) = &queuer_url {
            match check_queuer_url(address.as_str()) {
                Ok(()) => {},
                Err(fault) => {
                    return Err(fault);
                },
            }
        }
        Ok(Shard { bot, connect_amount, queuer_url })
    }

    /// The settings of the bot.
    pub fn bot(&self) -> (bot: &Bot)
        ensures
            *bot == self.spec_bot(),
    {
        &self.bot
    }

    /// Which shards the process connects.
    pub fn connect_amount(&self) -> (amount: &ShardConnectAmount)
        ensures
            *amount == self.spec_connect_amount(),
    {
        &self.connect_amount
    }

    /// The address of the admission service, if the process asks one.
    pub fn queuer_url(&self) -> (url: Option<&str>)
        ensures
            str_of(url) == self.spec_queuer_url(),
    {
        as_deref(&self.queuer_url)
    }
}

} // verus!
