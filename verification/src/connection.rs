use vstd::prelude::*;
use crate::error::LavalinkError;
use crate::error::LavalinkResult;
use crate::model::GuildId;
use crate::opcode::Command;
use crate::opcode::CommandView;
use crate::opcode::SendOpcode;

verus! {

/// The one outbound channel to the server's socket session, or its absence.
///
/// `S` is whatever the socket task hands out for sending; the handle keeps
/// it and never looks inside.
pub struct ConnectionHandle<S> {
    pub sender: Option<S>,
}

impl<S> ConnectionHandle<S> {
    /// Whether a socket session is attached.
    pub open spec fn attached(&self) -> bool {
        self.sender is Some
    }

    /// A handle without a session.
    pub fn new() -> (handle: Self)
        ensures
            !handle.attached(),
    {
        ConnectionHandle { sender: None }
    }

    /// Whether a socket session is attached.
    pub fn is_attached(&self) -> (attached: bool)
        ensures
            attached == self.attached(),
    {
        self.sender.is_some()
    }

    /// Puts the sender of a new socket session in place of whatever was
    /// there, and returns what was there.
    pub fn attach(&mut self, sender: S) -> (previous: Option<S>)
        ensures
            final(self).sender == Some(sender),
            previous == old(self).sender,
    {
        let mut slot = Some(sender);
        std::mem::swap(&mut self.sender, &mut slot);
        slot
    }

    /// Drops the session, as after a lost connection, and returns its
    /// sender.
    pub fn detach(&mut self) -> (previous: Option<S>)
        ensures
            !final(self).attached(),
            previous == old(self).sender,
    {
        let mut slot = None;
        std::mem::swap(&mut self.sender, &mut slot);
        slot
    }

    /// Addresses the command to the guild, ready to be transmitted on the
    /// attached session. Without a session there is nothing to transmit on.
    pub fn send(&self, guild_id: GuildId, opcode: SendOpcode) -> (outcome: LavalinkResult<Command>)
        ensures
            match outcome {
                Ok(command) => self.attached() && command@ == (CommandView {
                    guild_id,
                    opcode: opcode@,
                }),
                Err(error) => !self.attached() && error == LavalinkError::MissingLavalinkSocket,
            },
    {
        if self.sender.is_some() {
            Ok(Command { guild_id, opcode })
        } else {
            Err(LavalinkError::MissingLavalinkSocket)
        }
    }
}

} // verus!
