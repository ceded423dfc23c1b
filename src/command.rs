//! The per-connection record of which command, if any, is in flight.

use vstd::prelude::*;

use crate::error::ExecuteError;

verus! {

/// What is outstanding on a connection's wire.
#[derive(Clone, Copy, Debug, PartialEq, Eq, Structural)]
pub enum CommandState {
    /// No command outstanding: a new one may be sent.
    Idle,
    /// A command was sent and its response is (still) being read.
    AwaitingResponse,
}

impl CommandState {
    /// The state of a freshly set-up connection.
    pub fn new() -> (r: CommandState)
        ensures
            r == CommandState::Idle,
    {
        CommandState::Idle
    }

    pub fn is_idle(&self) -> (r: bool)
        ensures
            r == (*self == CommandState::Idle),
    {
        match self {
            CommandState::Idle => true,
            CommandState::AwaitingResponse => false,
        }
    }

    /// Marks a command as sent. Refused, with the state left as it was,
    /// while another command is outstanding.
    pub fn begin(&mut self) -> (r: Result<(), ExecuteError>)
        ensures
            *old(self) == CommandState::Idle ==> r is Ok && *final(self)
                == CommandState::AwaitingResponse,
            *old(self) != CommandState::Idle ==> r == Err::<(), ExecuteError>(
                ExecuteError::CommandInProgress,
            ) && *final(self) == *old(self),
    {
        if self.is_idle() {
            *self = CommandState::AwaitingResponse;
            Ok(())
        } else {
            Err(ExecuteError::CommandInProgress)
        }
    }

    /// Expects the response of a further statement of the same command;
    /// the command slot stays occupied.
    pub fn rearm(&mut self)
        ensures
            *final(self) == CommandState::AwaitingResponse,
    {
        *self = CommandState::AwaitingResponse;
    }

    /// Marks the command in flight as complete.
    pub fn end(&mut self)
        ensures
            *final(self) == CommandState::Idle,
    {
        *self = CommandState::Idle;
    }
}

} // verus!
