use vstd::prelude::*;
use crate::error::LavalinkError;
use crate::error::LavalinkResult;
use crate::model::GuildId;
use crate::model::TrackQueueView;
use crate::node::NodeView;
use crate::opcode::Command;
use crate::opcode::CommandView;
use crate::opcode::PlayView;
use crate::opcode::SendOpcodeView;
use crate::voice::ConnectionInfoView;
use crate::voice::SongbirdConnectionInfoView;

verus! {

/// How long a dispatcher rests between two wakes, in milliseconds.
pub const DISPATCH_INTERVAL_MS: u64 = 1000;

/// What queueing an item asks of the caller.
#[derive(Debug, Clone, Copy, PartialEq, Eq, Structural)]
pub enum QueueOutcome {
    /// The guild had no dispatcher yet: the caller starts one now.
    StartDispatcher,
    /// A dispatcher already serves the guild and will pick the item up.
    Queued,
}

/// What one wake of a guild's dispatcher leads to.
#[derive(Debug, PartialEq, Eq)]
pub enum Tick {
    /// The guild has no node any more: the dispatcher ends.
    Finished,
    /// Nothing is due: the queue is empty or an entry still plays.
    Idle,
    /// The first entry became the playing one; this command plays it.
    Send(Command),
    /// An entry is due, but its command could not be addressed. Nothing
    /// was changed: the failure is for the record, and the next wake finds
    /// the same entry due.
    Unsent(LavalinkError),
}

/// Mathematical value of a [`Tick`].
pub enum TickView {
    Finished,
    Idle,
    Send(CommandView),
    Unsent(LavalinkError),
}

impl View for Tick {
    type V = TickView;

    open spec fn view(&self) -> TickView {
        match self {
            Tick::Finished => TickView::Finished,
            Tick::Idle => TickView::Idle,
            Tick::Send(command) => TickView::Send(command@),
            Tick::Unsent(error) => TickView::Unsent(*error),
        }
    }
}

/// The view of a command that may have failed.
pub open spec fn command_view(outcome: LavalinkResult<Command>) -> Result<
    CommandView,
    LavalinkError,
> {
    match outcome {
        Ok(command) => Ok(command@),
        Err(error) => Err(error),
    }
}

/// The play payload that starts a queue entry. It replaces whatever the
/// server plays.
pub open spec fn play_of(item: TrackQueueView) -> PlayView {
    PlayView {
        track: item.track.track,
        no_replace: false,
        start_time: item.start_time,
        end_time: item.end_time,
    }
}

/// The state of a client as the operations see it: whether a socket session
/// is attached, the node of each guild with a session, and the guilds for
/// which a dispatcher was started.
pub struct ClientView {
    pub connected: bool,
    pub nodes: Map<u64, NodeView>,
    pub loops: Set<u64>,
}

impl ClientView {
    /// Whether the guild has a node.
    pub open spec fn has_session(self, guild: GuildId) -> bool {
        self.nodes.contains_key(guild.0)
    }

    /// The guild's node. Meaningful where the guild has a session.
    pub open spec fn node(self, guild: GuildId) -> NodeView {
        self.nodes[guild.0]
    }

    /// The state in which the guild's node is the given one.
    pub open spec fn with_node(self, guild: GuildId, node: NodeView) -> ClientView {
        ClientView { nodes: self.nodes.insert(guild.0, node), ..self }
    }

    /// What a command that only needs the socket comes to.
    pub open spec fn addressed(self, guild: GuildId, opcode: SendOpcodeView) -> Result<
        CommandView,
        LavalinkError,
    > {
        if self.connected {
            Ok(CommandView { guild_id: guild, opcode })
        } else {
            Err(LavalinkError::MissingLavalinkSocket)
        }
    }

    /// The state after a session was created for the guild: it has a node,
    /// a fresh one unless it had one already.
    pub open spec fn session_created(self, guild: GuildId) -> ClientView {
        if self.has_session(guild) {
            self
        } else {
            self.with_node(guild, NodeView::fresh(guild))
        }
    }

    /// What queueing an item for the guild returns.
    pub open spec fn enqueue_outcome(self, guild: GuildId) -> Result<QueueOutcome, LavalinkError> {
        if !self.has_session(guild) {
            Err(LavalinkError::NoSessionPresent)
        } else if self.node(guild).is_on_loops {
            Ok(QueueOutcome::Queued)
        } else {
            Ok(QueueOutcome::StartDispatcher)
        }
    }

    /// The state after an item was queued for the guild.
    pub open spec fn enqueued(self, guild: GuildId, item: TrackQueueView) -> ClientView {
        if self.has_session(guild) {
            ClientView {
                nodes: self.nodes.insert(guild.0, self.node(guild).enqueued(item)),
                loops: if self.node(guild).is_on_loops {
                    self.loops
                } else {
                    self.loops.insert(guild.0)
                },
                ..self
            }
        } else {
            self
        }
    }

    /// The entry a skip returns.
    pub open spec fn skip_result(self, guild: GuildId) -> Option<TrackQueueView> {
        if self.has_session(guild) {
            self.node(guild).head()
        } else {
            None
        }
    }

    /// The state after a skip.
    pub open spec fn skipped(self, guild: GuildId) -> ClientView {
        if self.has_session(guild) {
            self.with_node(guild, self.node(guild).skipped())
        } else {
            self
        }
    }

    /// The state after the guild's player was destroyed. Without a socket
    /// session nothing happens.
    pub open spec fn destroyed(self, guild: GuildId) -> ClientView {
        if self.connected {
            self.skipped(guild)
        } else {
            self
        }
    }

    /// What setting the pause flag returns: the pause command, where the
    /// guild has a session and a socket session is attached.
    pub open spec fn pause_outcome(self, guild: GuildId, pause: bool) -> Result<
        CommandView,
        LavalinkError,
    > {
        if !self.has_session(guild) {
            Err(LavalinkError::NoSessionPresent)
        } else {
            self.addressed(guild, SendOpcodeView::Pause(crate::opcode::Pause { pause }))
        }
    }

    /// The state after the pause flag was set. The flag follows the
    /// commands that are issued: where none is, it stays as it was.
    pub open spec fn paused(self, guild: GuildId, pause: bool) -> ClientView {
        if self.has_session(guild) && self.connected {
            self.with_node(guild, self.node(guild).paused(pause))
        } else {
            self
        }
    }

    /// What a wake of the guild's dispatcher leads to.
    pub open spec fn tick_outcome(self, guild: GuildId) -> TickView {
        if !self.has_session(guild) {
            TickView::Finished
        } else if !self.node(guild).due() {
            TickView::Idle
        } else if self.connected {
            TickView::Send(
                CommandView {
                    guild_id: guild,
                    opcode: SendOpcodeView::Play(play_of(self.node(guild).queue[0])),
                },
            )
        } else {
            TickView::Unsent(LavalinkError::MissingLavalinkSocket)
        }
    }

    /// The state after a wake of the guild's dispatcher. An entry becomes
    /// the playing one only where its play command can be addressed;
    /// without a socket session the wake changes nothing, so that a later
    /// wake finds the same entry due.
    pub open spec fn ticked(self, guild: GuildId) -> ClientView {
        if self.has_session(guild) && self.connected {
            self.with_node(guild, self.node(guild).dispatched())
        } else {
            self
        }
    }

    /// The state after a play command could not be transmitted: nothing
    /// counts as playing, and the entry stays first in the queue.
    pub open spec fn play_failed(self, guild: GuildId) -> ClientView {
        self.track_ended(guild, false)
    }

    /// The state after the server reported that the guild's track ended.
    pub open spec fn track_ended(self, guild: GuildId, finished: bool) -> ClientView {
        if self.has_session(guild) {
            self.with_node(guild, self.node(guild).ended(finished))
        } else {
            self
        }
    }

    /// The state after a session was asked for on behalf of the guild.
    /// Without a socket session nothing happens.
    pub open spec fn session_opened(self, guild: GuildId) -> ClientView {
        if self.connected {
            self.session_created(guild)
        } else {
            self
        }
    }

    /// What creating a session from a complete voice connection returns:
    /// the voice update, addressed to the connection's guild.
    pub open spec fn session_outcome(self, connection: SongbirdConnectionInfoView) -> Result<
        CommandView,
        LavalinkError,
    > {
        self.addressed(connection.guild_id, SendOpcodeView::VoiceUpdate(connection.voice_update()))
    }

    /// The state after a session was asked for with what the voice gateway
    /// knows. While a field is missing nothing happens.
    pub open spec fn gateway_session_opened(self, info: ConnectionInfoView) -> ClientView {
        if info.missing_field() is None {
            self.session_opened(info.complete().guild_id)
        } else {
            self
        }
    }

    /// What creating a session with what the voice gateway knows returns:
    /// the first missing field, or else what the complete connection gives.
    pub open spec fn gateway_session_outcome(self, info: ConnectionInfoView) -> Result<
        CommandView,
        LavalinkError,
    > {
        match info.missing_field() {
            Some(name) => Err(LavalinkError::MissingConnectionField(name)),
            None => self.session_outcome(info.complete()),
        }
    }
}

} // verus!
