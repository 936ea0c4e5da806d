use vstd::prelude::*;
use crate::client::LavalinkClient;
use crate::error::LavalinkError;
use crate::error::LavalinkResult;
use crate::model::GuildId;
use crate::model::TrackQueue;
use crate::opcode::Command;
use crate::state::command_view;
use crate::state::QueueOutcome;
use crate::state::Tick;
use crate::state::TickView;

verus! {

// A client that several tasks share sits behind a lock. The operations that
// touch a node never wait for that lock: they take the client where the lock
// could be had at once, and fail fast where it could not.

impl<S> LavalinkClient<S> {
    /// [`LavalinkClient::skip`] on a client that may be busy: a busy client
    /// is left alone and nothing is returned.
    pub fn skip_if_free(claim: Option<&mut Self>, guild_id: GuildId) -> (skipped: Option<TrackQueue>)
        ensures
            match claim {
                Some(client) => {
                    &&& final(client)@ == client@.skipped(guild_id)
                    &&& final(client).same_link(client)
                    &&& match skipped {
                        Some(item) => Some(item@),
                        None => None,
                    } == client@.skip_result(guild_id)
                },
                None => skipped is None,
            },
    {
        match claim {
            Some(client) => client.skip(guild_id),
            None => None,
        }
    }

    /// [`LavalinkClient::enqueue`] on a client that may be busy: a busy
    /// client is left alone and the item is refused.
    pub fn enqueue_if_free(claim: Option<&mut Self>, guild_id: GuildId, item: TrackQueue) -> (outcome:
        LavalinkResult<QueueOutcome>)
        ensures
            match claim {
                Some(client) => {
                    &&& final(client)@ == client@.enqueued(guild_id, item@)
                    &&& final(client).same_link(client)
                    &&& outcome == client@.enqueue_outcome(guild_id)
                },
                None => outcome == Err::<QueueOutcome, LavalinkError>(
                    LavalinkError::OperationWouldBlock,
                ),
            },
    {
        match claim {
            Some(client) => client.enqueue(guild_id, item),
            None => Err(LavalinkError::OperationWouldBlock),
        }
    }

    /// [`LavalinkClient::set_pause`] on a client that may be busy: a busy
    /// client is left alone and no command is built.
    pub fn set_pause_if_free(claim: Option<&mut Self>, guild_id: GuildId, pause: bool) -> (outcome:
        LavalinkResult<Command>)
        ensures
            match claim {
                Some(client) => {
                    &&& final(client)@ == client@.paused(guild_id, pause)
                    &&& final(client).same_link(client)
                    &&& command_view(outcome) == client@.pause_outcome(guild_id, pause)
                },
                None => outcome matches Err(LavalinkError::OperationWouldBlock),
            },
    {
        match claim {
            Some(client) => client.set_pause(guild_id, pause),
            None => Err(LavalinkError::OperationWouldBlock),
        }
    }

    /// [`LavalinkClient::dispatch`] on a client that may be busy: a busy
    /// client is left alone, and the dispatcher looks again at its next
    /// wake.
    pub fn dispatch_if_free(claim: Option<&mut Self>, guild_id: GuildId) -> (tick: Tick)
        ensures
            match claim {
                Some(client) => {
                    &&& final(client)@ == client@.ticked(guild_id)
                    &&& final(client).same_link(client)
                    &&& tick@ == client@.tick_outcome(guild_id)
                },
                None => tick@ == TickView::Idle,
            },
    {
        match claim {
            Some(client) => client.dispatch(guild_id),
            None => Tick::Idle,
        }
    }
}

} // verus!
