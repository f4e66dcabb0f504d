//! What to do with an event that a session received.
//!
//! Running a command and answering an interaction is done by whoever
//! handles the event. Which command an interaction asks for, and what
//! follows from the outcome, is decided here.

use crate::text::same_text;
use vstd::prelude::*;

verus! {

/// An event could not be processed.
#[derive(Debug)]
pub struct EventFailed;

impl EventFailed {
    /// The error in words.
    pub fn message(&self) -> (text: &'static str)
        ensures
            text@ == "Failed to process event"@,
    {
        "Failed to process event"
    }
}

/// A command could not be run.
#[derive(Debug)]
pub struct RunError;

impl RunError {
    /// The error in words.
    pub fn message(&self) -> (text: &'static str)
        ensures
            text@ == "Failed to run command"@,
    {
        "Failed to run command"
    }
}

/// What a user is told when a command failed.
pub const FAILURE_NOTICE: &'static str =
    "There's something wrong with your request. Please report this to the developers immediately!";

/// The commands of the bot.
#[derive(Clone, Copy, Debug, PartialEq, Eq, Structural)]
pub enum Command {
    /// Answers with a pong.
    Ping,
}

impl Command {
    /// The command of a name, if the name is that of a command.
    pub open spec fn spec_from_name(name: Seq<char>) -> Option<Command> {
        if name == "ping"@ {
            Some(Command::Ping)
        } else {
            None
        }
    }

    /// Finds the command that an interaction names. A name that no command
    /// has is an error.
    pub fn from_name(name: &str) -> (found: Result<Command, RunError>)
        ensures
            match Self::spec_from_name(name@) {
                Some(command) => found matches Ok(known) && known == command,
                None => found is Err,
            },
    {
        if same_text(name, "ping") {
            Ok(Command::Ping)
        } else {
            Err(RunError)
        }
    }

    /// The name of the command.
    pub fn name(self) -> (name: &'static str)
        ensures
            Self::spec_from_name(name@) == Some(self),
            self is Ping ==> name@ == "ping"@,
    {
        match self {
            Command::Ping => "ping",
        }
    }

    /// What the command is described as.
    pub fn description(self) -> (text: &'static str)
        ensures
            self is Ping ==> text@ == "Responds back with pong"@,
    {
        match self {
            Command::Ping => "Responds back with pong",
        }
    }

    /// What the command answers.
    pub fn reply(self) -> (text: &'static str)
        ensures
            self is Ping ==> text@ == "Pong!"@,
    {
        match self {
            Command::Ping => "Pong!",
        }
    }
}

/// An event, as far as handling it goes.
pub enum Incoming<'a> {
    /// The gateway's greeting.
    Hello,
    /// The gateway's word that the session is ready.
    Ready,
    /// An interaction that asks for the command of this name.
    CommandInteraction { name: &'a str },
    /// An interaction that asks for no command.
    OtherInteraction,
    /// Any other event.
    Other,
}

/// What is done with an event.
#[derive(Clone, Copy, Debug, PartialEq, Eq, Structural)]
pub enum Handling {
    /// Note that the bot is identifying.
    NoteHello,
    /// Note as whom the bot is logged in.
    NoteReady,
    /// Run the command.
    Run(Command),
    /// Tell the user that the request failed: it named no command.
    Apologize,
    /// Nothing.
    Skip,
}

/// What is done with an event: a greeting and a word of readiness are
/// noted, an interaction that names a command has it run, one that names
/// something else is apologized for, and all else is skipped.
pub open spec fn spec_handling(incoming: Incoming) -> Handling {
    match incoming {
        Incoming::Hello => Handling::NoteHello,
        Incoming::Ready => Handling::NoteReady,
        Incoming::CommandInteraction { name } => match Command::spec_from_name(name@) {
            Some(command) => Handling::Run(command),
            None => Handling::Apologize,
        },
        Incoming::OtherInteraction => Handling::Skip,
        Incoming::Other => Handling::Skip,
    }
}

/// Decides what is done with an event.
pub fn handling(incoming: Incoming) -> (decided: Handling)
    ensures
        decided == spec_handling(incoming),
{
    match incoming {
        Incoming::Hello => Handling::NoteHello,
        Incoming::Ready => Handling::NoteReady,
        Incoming::CommandInteraction { name } => match Command::from_name(name) {
            Ok(command) => Handling::Run(command),
            Err(_) => Handling::Apologize,
        },
        Incoming::OtherInteraction => Handling::Skip,
        Incoming::Other => Handling::Skip,
    }
}

/// What the user is told after a command ran: nothing if it went well, the
/// notice of failure if it did not.
pub fn notice_after(ran: &Result<(), RunError>) -> (notice: Option<&'static str>)
    ensures
        *ran is Ok <==> notice is None,
        notice matches Some(text) ==> text@ == FAILURE_NOTICE@,
{
    match ran {
        Ok(()) => None,
        Err(_) => Some(FAILURE_NOTICE),
    }
}

/// How handling an event ended, from whether the notice of failure could be
/// delivered where one was due: an event fails only if its notice is lost.
pub fn conclude(notice_due: bool, notice_delivered: bool) -> (ended: Result<(), EventFailed>)
    ensures
        ended is Err <==> notice_due && !notice_delivered,
{
    if notice_due && !notice_delivered {
        Err(EventFailed)
    } else {
        Ok(())
    }
}

} // verus!
