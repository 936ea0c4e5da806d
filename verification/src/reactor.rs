use vstd::prelude::*;
use crate::client::LavalinkClient;
use crate::model::GuildId;
use crate::state::ClientView;
use crate::text::same_text;

verus! {

/// Why the server stopped playing a track.
#[derive(Debug, Clone, Copy, PartialEq, Eq, Structural)]
pub enum TrackEndReason {
    /// The track played to its end.
    Finished,
    /// The track could not be loaded.
    LoadFailed,
    /// Playback was stopped on the client's request.
    Stopped,
    /// Another track took its place.
    Replaced,
    /// The player was cleaned up.
    Cleanup,
    /// A reason this library does not know.
    Other,
}

/// The reason that a text of the protocol stands for.
pub open spec fn reason_of(text: Seq<char>) -> TrackEndReason {
    if text == "FINISHED"@ {
        TrackEndReason::Finished
    } else if text == "LOAD_FAILED"@ {
        TrackEndReason::LoadFailed
    } else if text == "STOPPED"@ {
        TrackEndReason::Stopped
    } else if text == "REPLACED"@ {
        TrackEndReason::Replaced
    } else if text == "CLEANUP"@ {
        TrackEndReason::Cleanup
    } else {
        TrackEndReason::Other
    }
}

impl TrackEndReason {
    /// Reads the reason as the protocol writes it.
    pub fn parse(text: &str) -> (reason: Self)
        ensures
            reason == reason_of(text@),
    {
        if same_text(text, "FINISHED") {
            TrackEndReason::Finished
        } else if same_text(text, "LOAD_FAILED") {
            TrackEndReason::LoadFailed
        } else if same_text(text, "STOPPED") {
            TrackEndReason::Stopped
        } else if same_text(text, "REPLACED") {
            TrackEndReason::Replaced
        } else if same_text(text, "CLEANUP") {
            TrackEndReason::Cleanup
        } else {
            TrackEndReason::Other
        }
    }
}

/// What the server reports, as far as the client's state depends on it.
#[derive(Debug, Clone, Copy, PartialEq, Eq, Structural)]
pub enum LavalinkEvent {
    Stats,
    PlayerUpdate(GuildId),
    TrackStart(GuildId),
    TrackEnd(GuildId, TrackEndReason),
    TrackException(GuildId),
    TrackStuck(GuildId),
    WebSocketClosed(GuildId),
    Ready,
}

/// The event that a frame of the kind `event` stands for, by its type.
pub open spec fn player_event_of(kind: Seq<char>, guild: GuildId, reason: Seq<char>) -> Option<
    LavalinkEvent,
> {
    if kind == "TrackStartEvent"@ {
        Some(LavalinkEvent::TrackStart(guild))
    } else if kind == "TrackEndEvent"@ {
        Some(LavalinkEvent::TrackEnd(guild, reason_of(reason)))
    } else if kind == "TrackExceptionEvent"@ {
        Some(LavalinkEvent::TrackException(guild))
    } else if kind == "TrackStuckEvent"@ {
        Some(LavalinkEvent::TrackStuck(guild))
    } else if kind == "WebSocketClosedEvent"@ {
        Some(LavalinkEvent::WebSocketClosed(guild))
    } else {
        None
    }
}

/// The event that a frame stands for, by its tags: the operation, the
/// type where the operation is `event`, the guild where the frame names
/// one, and the reason where a track ended. A frame with unknown tags, or
/// without the guild that its kind needs, stands for none.
pub open spec fn frame_event(
    op: Seq<char>,
    kind: Seq<char>,
    guild: Option<GuildId>,
    reason: Seq<char>,
) -> Option<LavalinkEvent> {
    if op == "stats"@ {
        Some(LavalinkEvent::Stats)
    } else if op == "ready"@ {
        Some(LavalinkEvent::Ready)
    } else if op == "playerUpdate"@ {
        match guild {
            Some(guild) => Some(LavalinkEvent::PlayerUpdate(guild)),
            None => None,
        }
    } else if op == "event"@ {
        match guild {
            Some(guild) => player_event_of(kind, guild, reason),
            None => None,
        }
    } else {
        None
    }
}

/// Reads the event that a frame stands for from its tags.
pub fn event_of(op: &str, kind: &str, guild: Option<GuildId>, reason: &str) -> (event: Option<
    LavalinkEvent,
>)
    ensures
        event == frame_event(op@, kind@, guild, reason@),
{
    if same_text(op, "stats") {
        Some(LavalinkEvent::Stats)
    } else if same_text(op, "ready") {
        Some(LavalinkEvent::Ready)
    } else if same_text(op, "playerUpdate") {
        match guild {
            Some(guild) => Some(LavalinkEvent::PlayerUpdate(guild)),
            None => None,
        }
    } else if same_text(op, "event") {
        match guild {
            Some(guild) => {
                if same_text(kind, "TrackStartEvent") {
                    Some(LavalinkEvent::TrackStart(guild))
                } else if same_text(kind, "TrackEndEvent") {
                    Some(LavalinkEvent::TrackEnd(guild, TrackEndReason::parse(reason)))
                } else if same_text(kind, "TrackExceptionEvent") {
                    Some(LavalinkEvent::TrackException(guild))
                } else if same_text(kind, "TrackStuckEvent") {
                    Some(LavalinkEvent::TrackStuck(guild))
                } else if same_text(kind, "WebSocketClosedEvent") {
                    Some(LavalinkEvent::WebSocketClosed(guild))
                } else {
                    None
                }
            },
            None => None,
        }
    } else {
        None
    }
}

impl ClientView {
    /// The state after the event was taken note of.
    ///
    /// The end of a track, an exception in it and a stuck track all mean
    /// that nothing plays any more; a track that played to its end also
    /// leaves the queue. No other event touches the state.
    pub open spec fn after_event(self, event: LavalinkEvent) -> ClientView {
        match event {
            LavalinkEvent::TrackEnd(guild, reason) => self.track_ended(
                guild,
                reason == TrackEndReason::Finished,
            ),
            LavalinkEvent::TrackException(guild) => self.track_ended(guild, false),
            LavalinkEvent::TrackStuck(guild) => self.track_ended(guild, false),
            _ => self,
        }
    }

    /// The state after the socket session was lost.
    pub open spec fn disconnected(self) -> ClientView {
        ClientView { connected: false, ..self }
    }

    /// The state after a socket session was attached.
    pub open spec fn reconnected(self) -> ClientView {
        ClientView { connected: true, ..self }
    }
}

impl<S> LavalinkClient<S> {
    /// Takes note of an event from the server. An event for a guild
    /// without a node changes nothing.
    pub fn handle_event(&mut self, event: LavalinkEvent)
        ensures
            final(self)@ == old(self)@.after_event(event),
            final(self).same_link(old(self)),
    {
        match event {
            LavalinkEvent::TrackEnd(guild, reason) => {
                let finished = match reason {
                    TrackEndReason::Finished => true,
                    _ => false,
                };
                self.track_ended(guild, finished)
            },
            LavalinkEvent::TrackException(guild) => self.track_ended(guild, false),
            LavalinkEvent::TrackStuck(guild) => self.track_ended(guild, false),
            _ => {},
        }
    }

    /// Takes note that the socket session was lost: until a new one is
    /// attached, commands fail for want of a socket. Nodes and loops are
    /// kept. Returns the sender of the lost session.
    pub fn connection_lost(&mut self) -> (sender: Option<S>)
        ensures
            final(self)@ == old(self)@.disconnected(),
            final(self).same_setup(old(self)),
            sender == old(self).inner.socket_sender.sender,
    {
        self.inner.socket_sender.detach()
    }

    /// Attaches the sender of a new socket session in place of the old
    /// one. Nodes and loops are kept.
    pub fn connection_restored(&mut self, sender: S) -> (previous: Option<S>)
        ensures
            final(self)@ == old(self)@.reconnected(),
            final(self).same_setup(old(self)),
            final(self).inner.socket_sender.sender == Some(sender),
            previous == old(self).inner.socket_sender.sender,
    {
        self.inner.socket_sender.attach(sender)
    }
}


/// The wait that doubles with every failed attempt: the base wait doubled
/// `attempt` times.
pub open spec fn doubled(base: nat, attempt: nat) -> nat
    decreases attempt,
{
    if attempt == 0 {
        base
    } else {
        2 * doubled(base, (attempt - 1) as nat)
    }
}

/// The wait before the reconnection attempt with this number, counted from
/// zero: it doubles from the base wait and never exceeds the cap.
pub open spec fn delay_of(base_ms: u64, cap_ms: u64, attempt: nat) -> nat {
    if doubled(base_ms as nat, attempt) < cap_ms {
        doubled(base_ms as nat, attempt)
    } else {
        cap_ms as nat
    }
}

/// How the reactor spaces its attempts to reconnect: a bounded number of
/// attempts, each after a wait that doubles up to a cap. All waits are in
/// milliseconds.
#[derive(Debug, Clone, Copy, PartialEq, Eq, Structural)]
pub struct Backoff {
    pub base_ms: u64,
    pub cap_ms: u64,
    pub max_attempts: u32,
    /// How many attempts were made since the connection was last up.
    pub attempts: u32,
}

impl Backoff {
    /// A schedule on which no attempt was made yet.
    pub fn new(base_ms: u64, cap_ms: u64, max_attempts: u32) -> (backoff: Self)
        ensures
            backoff == (Backoff { base_ms, cap_ms, max_attempts, attempts: 0 }),
    {
        Backoff { base_ms, cap_ms, max_attempts, attempts: 0 }
    }

    /// The wait before the next attempt, which is counted. Once all
    /// attempts are used up there is none: the reactor gives up.
    pub fn next_delay(&mut self) -> (delay: Option<u64>)
        ensures
            match delay {
                Some(ms) => old(self).attempts < old(self).max_attempts && ms == delay_of(
                    old(self).base_ms,
                    old(self).cap_ms,
                    old(self).attempts as nat,
                ) && *final(self) == (Backoff { attempts: (old(self).attempts + 1) as u32, ..*old(self) }),
                None => old(self).attempts >= old(self).max_attempts && *final(self) == *old(self),
            },
    {
        if self.attempts >= self.max_attempts {
            return None;
        }
        let cap = self.cap_ms;
        let mut ms: u64 = if self.base_ms < cap {
            self.base_ms
        } else {
            cap
        };
        let mut i: u32 = 0;
        while i < self.attempts
            invariant
                i <= self.attempts,
                cap == self.cap_ms,
                ms == delay_of(self.base_ms, cap, i as nat),
            decreases self.attempts - i,
        {
            assert(doubled(self.base_ms as nat, (i + 1) as nat) == 2 * doubled(
                self.base_ms as nat,
                i as nat,
            ));
            ms = if ms >= cap - ms {
                cap
            } else {
                ms * 2
            };
            i += 1;
        }
        self.attempts = self.attempts + 1;
        Some(ms)
    }

    /// Starts the schedule over, as after a successful connection.
    pub fn reset(&mut self)
        ensures
            *final(self) == (Backoff { attempts: 0, ..*old(self) }),
    {
        self.attempts = 0;
    }
}

} // verus!
