//! Admission control for gateway session starts, and the lifecycle of one
//! gateway session.
//!
//! A gateway lets only so many sessions start at the same time. The
//! [`limiter`] grants one start per bucket and cooldown; the [`local`]
//! queue, the [`remote`] client with its fallback, and the [`service`] put
//! it to use, and [`queue`] is whichever of them a process has picked. A
//! [`session`] obtains its grant, connects, hands its events to background
//! tasks, and closes in order once the [`shutdown`] signal has fired.
//!
//! Everything here is a state machine or a function of plain values. Time,
//! the network and tasks belong to the caller, who reports what happened and
//! is told what to do.
//!
//! Two functions are taken on trust, not proved: `config::url::url_path`,
//! which asks the `url` crate for the path of an address, and
//! `text::push_char`, which appends a character to a string.

pub mod bucket;
pub mod config;
pub mod dispatch;
pub mod env;
pub mod limiter;
pub mod local;
pub mod parse;
pub mod queue;
pub mod remote;
pub mod runtime;
pub mod service;
pub mod session;
pub mod shutdown;
pub mod text;
