use vstd::prelude::*;
use std::time::Duration;
use crate::builders::LavalinkClientBuilder;
use crate::builders::LavalinkClientBuilderView;
use crate::builders::PlayParameters;
use crate::builders::PlayParametersView;
use crate::connection::ConnectionHandle;
use crate::error::LavalinkError;
use crate::error::LavalinkResult;
use crate::handshake::headers_view;
use crate::handshake::is_header_value;
use crate::handshake::Header;
use crate::handshake::DISCORD_GATEWAY_URI;
use crate::model::GuildId;
use crate::model::Track;
use crate::model::TrackQueue;
use crate::model::UserId;
use crate::node::Node;
use crate::opcode::bands_of;
use crate::opcode::clamped_volume;
use crate::opcode::flat_bands;
use crate::opcode::Band;
use crate::opcode::Command;
use crate::opcode::Equalizer;
use crate::opcode::Pause;
use crate::opcode::Play;
use crate::opcode::Seek;
use crate::opcode::SendOpcode;
use crate::opcode::SendOpcodeView;
use crate::opcode::Volume;
use crate::registry::ActiveLoops;
use crate::registry::NodeRegistry;
use crate::state::command_view;
use crate::state::play_of;
use crate::state::ClientView;
use crate::state::QueueOutcome;
use crate::state::Tick;
use crate::time::duration_millis;
use crate::time::millis_u64;
use crate::voice::ConnectionInfo;
use crate::voice::SongbirdConnectionInfo;

verus! {

/// What the voice gateway is reached and entered with.
#[derive(Debug, PartialEq, Eq)]
pub struct DiscordGatewayData {
    pub shard_count: u64,
    pub bot_id: UserId,
    pub bot_token: String,
    pub wait_time: Duration,
    pub headers: Vec<Header>,
    pub socket_uri: &'static str,
}

impl DiscordGatewayData {
    /// Whether this is the gateway data that belongs to the builder.
    pub open spec fn made_from(&self, builder: LavalinkClientBuilderView) -> bool {
        &&& self.shard_count == builder.shard_count
        &&& self.bot_id == builder.bot_id
        &&& self.bot_token@ == builder.bot_token
        &&& self.wait_time == builder.gateway_start_wait_time
        &&& headers_view(self.headers@) == builder.gateway_headers()
        &&& self.socket_uri@ == DISCORD_GATEWAY_URI@
    }
}

/// What the voice gateway is started with: the bot's token, and how long
/// to wait before the gateway is first connected.
#[derive(Debug, PartialEq, Eq)]
pub struct GatewayStart {
    pub bot_token: String,
    pub wait_time: Duration,
}

/// The wait before the gateway is connected: the one asked for, or else
/// the configured one.
pub open spec fn wait_of(asked: Option<Duration>, configured: Duration) -> Duration {
    match asked {
        Some(wait) => wait,
        None => configured,
    }
}

/// Everything a client holds: where the server is and what it is greeted
/// with, the connection handle, the node registry and the set of guilds
/// with a dispatcher.
pub struct LavalinkClientInner<S> {
    pub rest_uri: String,
    pub headers: Vec<Header>,
    /// The sender half of the socket session, while there is one.
    pub socket_sender: ConnectionHandle<S>,
    pub socket_uri: String,
    pub nodes: NodeRegistry,
    pub loops: ActiveLoops,
    pub discord_gateway_data: DiscordGatewayData,
}

impl<S> LavalinkClientInner<S> {
    /// Whether this is the state a client of the builder starts with:
    /// addresses and headers as the builder gives them, no socket session,
    /// no node and no dispatcher.
    pub open spec fn made_from(&self, builder: LavalinkClientBuilderView) -> bool {
        &&& self.rest_uri@ == builder.rest_uri()
        &&& self.socket_uri@ == builder.socket_uri()
        &&& headers_view(self.headers@) == builder.headers()
        &&& !self.socket_sender.attached()
        &&& self.nodes@ == Map::<u64, crate::node::NodeView>::empty()
        &&& self.loops@ == Set::<u64>::empty()
        &&& self.discord_gateway_data.made_from(builder)
    }
}

/// A client for one Lavalink server.
///
/// The client decides and keeps state; it transmits nothing itself. Each
/// operation that talks to the server returns the command to transmit.
pub struct LavalinkClient<S> {
    pub inner: LavalinkClientInner<S>,
}

impl<S> View for LavalinkClient<S> {
    type V = ClientView;

    open spec fn view(&self) -> ClientView {
        ClientView {
            connected: self.inner.socket_sender.attached(),
            nodes: self.inner.nodes@,
            loops: self.inner.loops@,
        }
    }
}

impl<S> LavalinkClient<S> {
    /// Whether the two clients agree in everything that is fixed when a
    /// client is made: the addresses, the headers and the gateway data.
    pub open spec fn same_setup(&self, other: &Self) -> bool {
        &&& self.inner.rest_uri == other.inner.rest_uri
        &&& self.inner.socket_uri == other.inner.socket_uri
        &&& self.inner.headers == other.inner.headers
        &&& self.inner.discord_gateway_data == other.inner.discord_gateway_data
    }

    /// Whether the two clients agree in their setup and hold the same
    /// sender.
    pub open spec fn same_link(&self, other: &Self) -> bool {
        self.same_setup(other) && self.inner.socket_sender == other.inner.socket_sender
    }

    /// A client for the server that the builder describes, not yet
    /// connected.
    ///
    /// Fails where the password, or the bot's token behind `Bot `, cannot
    /// stand in a header.
    pub fn new(builder: &LavalinkClientBuilder) -> (outcome: LavalinkResult<Self>)
        ensures
            match outcome {
                Ok(client) => builder@.presentable() && client.inner.made_from(builder@),
                Err(error) => !builder@.presentable() && error
                    == LavalinkError::InvalidHeaderValue("Authorization"),
            },
    {
        let headers = builder.headers();
        if !is_header_value(builder.password.as_str()) {
            return Err(LavalinkError::InvalidHeaderValue("Authorization"));
        }
        if !is_header_value(builder.gateway_authorization().as_str()) {
            return Err(LavalinkError::InvalidHeaderValue("Authorization"));
        }
        let gateway_headers = builder.gateway_headers();
        let discord_gateway_data = DiscordGatewayData {
            shard_count: builder.shard_count,
            bot_id: builder.bot_id,
            bot_token: builder.bot_token.clone(),
            wait_time: builder.gateway_start_wait_time,
            headers: gateway_headers,
            socket_uri: DISCORD_GATEWAY_URI,
        };
        let inner = LavalinkClientInner {
            rest_uri: builder.rest_uri(),
            headers,
            socket_sender: ConnectionHandle::new(),
            socket_uri: builder.socket_uri(),
            nodes: NodeRegistry::new(),
            loops: ActiveLoops::new(),
            discord_gateway_data,
        };
        Ok(LavalinkClient { inner })
    }

    /// A builder for a client of the given bot.
    pub fn builder(user_id: UserId, bot_token: &str) -> (builder: LavalinkClientBuilder)
        ensures
            builder@ == LavalinkClientBuilderView::initial(user_id, bot_token@, builder.gateway_start_wait_time),
            crate::time::whole_secs(builder.gateway_start_wait_time) == 6,
            crate::time::subsec_nanos(builder.gateway_start_wait_time) == 0,
    {
        LavalinkClientBuilder::new(user_id, bot_token)
    }

    /// A request to play the track in the guild, with nothing else asked
    /// for yet.
    pub fn play(&self, guild_id: GuildId, track: Track) -> (request: PlayParameters)
        ensures
            request@ == PlayParametersView::plain(guild_id, track@),
    {
        PlayParameters {
            track,
            guild_id: guild_id.0,
            replace: false,
            start: 0,
            finish: 0,
            requester: None,
        }
    }

    /// What to start the voice gateway with, if it has stopped or was
    /// never started. A wait that is passed here takes the place of the
    /// configured one.
    pub fn start_discord_gateway(&self, wait_time: Option<Duration>) -> (start: GatewayStart)
        ensures
            start.bot_token@ == self.inner.discord_gateway_data.bot_token@,
            start.wait_time == wait_of(wait_time, self.inner.discord_gateway_data.wait_time),
    {
        let wait_time = match wait_time {
            Some(wait) => wait,
            None => self.inner.discord_gateway_data.wait_time,
        };
        GatewayStart { bot_token: self.inner.discord_gateway_data.bot_token.clone(), wait_time }
    }

    /// What the voice gateway is reached and entered with.
    pub fn discord_gateway_data(&self) -> (data: &DiscordGatewayData)
        ensures
            *data == self.inner.discord_gateway_data,
    {
        &self.inner.discord_gateway_data
    }

    /// The node registry.
    pub fn nodes(&self) -> (nodes: &NodeRegistry)
        ensures
            nodes@ == self@.nodes,
    {
        &self.inner.nodes
    }

    /// The guilds for which a dispatcher was started. A guild is added the
    /// first time an item is queued for it.
    pub fn loops(&self) -> (loops: &ActiveLoops)
        ensures
            loops@ == self@.loops,
    {
        &self.inner.loops
    }

    /// Queues the item for the guild.
    ///
    /// Fails when the guild has no session. The first item queued for a
    /// guild puts it into the set of active loops and asks the caller to
    /// start its dispatcher; later items are only appended.
    pub fn enqueue(&mut self, guild_id: GuildId, item: TrackQueue) -> (outcome: LavalinkResult<
        QueueOutcome,
    >)
        ensures
            final(self)@ == old(self)@.enqueued(guild_id, item@),
            final(self).same_link(old(self)),
            outcome == old(self)@.enqueue_outcome(guild_id),
    {
        match self.inner.nodes.remove(guild_id.0) {
            Some(mut node) => {
                let start = node.enqueue(item);
                if start {
                    self.inner.loops.insert(guild_id.0);
                }
                self.inner.nodes.insert(guild_id.0, node);
                assert(self@.nodes =~= old(self)@.enqueued(guild_id, item@).nodes);
                if start {
                    Ok(QueueOutcome::StartDispatcher)
                } else {
                    Ok(QueueOutcome::Queued)
                }
            },
            None => {
                assert(self@.nodes =~= old(self)@.nodes);
                Err(LavalinkError::NoSessionPresent)
            },
        }
    }

    /// Skips to the next entry of the guild's queue: nothing counts as
    /// playing any more, and the first entry is removed and returned.
    /// Returns nothing when the queue is empty or the guild has no node.
    pub fn skip(&mut self, guild_id: GuildId) -> (skipped: Option<TrackQueue>)
        ensures
            final(self)@ == old(self)@.skipped(guild_id),
            final(self).same_link(old(self)),
            match skipped {
                Some(item) => Some(item@),
                None => None,
            } == old(self)@.skip_result(guild_id),
    {
        match self.inner.nodes.remove(guild_id.0) {
            Some(mut node) => {
                let skipped = node.skip();
                self.inner.nodes.insert(guild_id.0, node);
                assert(self@.nodes =~= old(self)@.skipped(guild_id).nodes);
                skipped
            },
            None => {
                assert(self@.nodes =~= old(self)@.nodes);
                None
            },
        }
    }

    /// Destroys the guild's player on the server.
    ///
    /// Nothing counts as playing any more and the first entry of the queue
    /// is dropped. The node stays in the registry and the guild in the set
    /// of active loops, so that a new session finds the queue as it was.
    pub fn destroy(&mut self, guild_id: GuildId) -> (outcome: LavalinkResult<Command>)
        ensures
            final(self)@ == old(self)@.destroyed(guild_id),
            final(self).same_link(old(self)),
            command_view(outcome) == old(self)@.addressed(guild_id, SendOpcodeView::Destroy),
    {
        if !self.inner.socket_sender.is_attached() {
            return Err(LavalinkError::MissingLavalinkSocket);
        }
        let _ = self.skip(guild_id);
        self.inner.socket_sender.send(guild_id, SendOpcode::Destroy)
    }

    /// Builds the pause command and notes its flag in the guild's node.
    ///
    /// Fails when the guild has no session, and then when no socket
    /// session is attached. The flag is noted only where the command is
    /// built, so a failed call leaves it as it was.
    pub fn set_pause(&mut self, guild_id: GuildId, pause: bool) -> (outcome: LavalinkResult<
        Command,
    >)
        ensures
            final(self)@ == old(self)@.paused(guild_id, pause),
            final(self).same_link(old(self)),
            command_view(outcome) == old(self)@.pause_outcome(guild_id, pause),
    {
        if !self.inner.nodes.contains_key(guild_id.0) {
            return Err(LavalinkError::NoSessionPresent);
        }
        if !self.inner.socket_sender.is_attached() {
            return Err(LavalinkError::MissingLavalinkSocket);
        }
        match self.inner.nodes.remove(guild_id.0) {
            Some(mut node) => {
                node.set_paused(pause);
                self.inner.nodes.insert(guild_id.0, node);
                assert(self@.nodes =~= old(self)@.paused(guild_id, pause).nodes);
            },
            None => {},
        }
        self.inner.socket_sender.send(guild_id, SendOpcode::Pause(Pause { pause }))
    }

    /// Pauses the guild's player.
    pub fn pause(&mut self, guild_id: GuildId) -> (outcome: LavalinkResult<Command>)
        ensures
            final(self)@ == old(self)@.paused(guild_id, true),
            final(self).same_link(old(self)),
            command_view(outcome) == old(self)@.pause_outcome(guild_id, true),
    {
        self.set_pause(guild_id, true)
    }

    /// Resumes the guild's player.
    pub fn resume(&mut self, guild_id: GuildId) -> (outcome: LavalinkResult<Command>)
        ensures
            final(self)@ == old(self)@.paused(guild_id, false),
            final(self).same_link(old(self)),
            command_view(outcome) == old(self)@.pause_outcome(guild_id, false),
    {
        self.set_pause(guild_id, false)
    }

    /// One wake of the guild's dispatcher.
    ///
    /// Without a node the dispatcher is finished. Where an entry waits and
    /// nothing counts as playing, the entry is due. With a socket session
    /// attached it becomes the playing one and the command that plays it is
    /// returned; it stays in the queue until the server reports its end or
    /// a caller skips it. Without a socket session the wake changes
    /// nothing and a later wake tries the same entry again.
    pub fn dispatch(&mut self, guild_id: GuildId) -> (tick: Tick)
        ensures
            final(self)@ == old(self)@.ticked(guild_id),
            final(self).same_link(old(self)),
            tick@ == old(self)@.tick_outcome(guild_id),
    {
        let attached = self.inner.socket_sender.is_attached();
        match self.inner.nodes.remove(guild_id.0) {
            Some(mut node) => {
                if !attached {
                    let due = node.is_due();
                    self.inner.nodes.insert(guild_id.0, node);
                    assert(self@.nodes =~= old(self)@.nodes);
                    if due {
                        Tick::Unsent(LavalinkError::MissingLavalinkSocket)
                    } else {
                        Tick::Idle
                    }
                } else {
                    let next = node.advance();
                    self.inner.nodes.insert(guild_id.0, node);
                    assert(self@.nodes =~= old(self)@.ticked(guild_id).nodes);
                    match next {
                        Some(item) => {
                            let payload = Play {
                                track: item.track.track,
                                no_replace: false,
                                start_time: item.start_time,
                                end_time: item.end_time,
                            };
                            assert(payload@ == play_of(item@));
                            match self.inner.socket_sender.send(
                                guild_id,
                                SendOpcode::Play(payload),
                            ) {
                                Ok(command) => Tick::Send(command),
                                Err(error) => Tick::Unsent(error),
                            }
                        },
                        None => Tick::Idle,
                    }
                }
            },
            None => {
                assert(self@.nodes =~= old(self)@.nodes);
                Tick::Finished
            },
        }
    }

    /// Takes note that nothing plays in the guild any more; an entry that
    /// played to its end also leaves the queue. A guild without a node is
    /// left alone.
    pub(crate) fn track_ended(&mut self, guild_id: GuildId, finished: bool)
        ensures
            final(self)@ == old(self)@.track_ended(guild_id, finished),
            final(self).same_link(old(self)),
    {
        match self.inner.nodes.remove(guild_id.0) {
            Some(mut node) => {
                node.track_ended(finished);
                self.inner.nodes.insert(guild_id.0, node);
                assert(self@.nodes =~= old(self)@.track_ended(guild_id, finished).nodes);
            },
            None => {
                assert(self@.nodes =~= old(self)@.nodes);
            },
        }
    }

    /// Takes note that the play command of the last wake could not be
    /// transmitted: nothing counts as playing any more, and the entry
    /// stays first in the queue, so the next wake tries it again.
    pub fn play_failed(&mut self, guild_id: GuildId)
        ensures
            final(self)@ == old(self)@.play_failed(guild_id),
            final(self)@ == old(self)@.track_ended(guild_id, false),
            final(self).same_link(old(self)),
    {
        self.track_ended(guild_id, false)
    }

    /// Stops the guild's player.
    pub fn stop(&self, guild_id: GuildId) -> (outcome: LavalinkResult<Command>)
        ensures
            command_view(outcome) == self@.addressed(guild_id, SendOpcodeView::Stop),
    {
        self.inner.socket_sender.send(guild_id, SendOpcode::Stop)
    }

    /// Jumps to a position in the track that plays. The position goes out
    /// in whole milliseconds.
    pub fn seek(&self, guild_id: GuildId, time: Duration) -> (outcome: LavalinkResult<Command>)
        ensures
            command_view(outcome) == self@.addressed(
                guild_id,
                SendOpcodeView::Seek(Seek { position: millis_u64(time) }),
            ),
    {
        let payload = Seek { position: duration_millis(time) };
        self.inner.socket_sender.send(guild_id, SendOpcode::Seek(payload))
    }

    /// Another name for [`LavalinkClient::seek`].
    pub fn jump_to_time(&self, guild_id: GuildId, time: Duration) -> (outcome: LavalinkResult<
        Command,
    >)
        ensures
            command_view(outcome) == self@.addressed(
                guild_id,
                SendOpcodeView::Seek(Seek { position: millis_u64(time) }),
            ),
    {
        self.seek(guild_id, time)
    }

    /// Another name for [`LavalinkClient::seek`].
    pub fn scrub(&self, guild_id: GuildId, time: Duration) -> (outcome: LavalinkResult<Command>)
        ensures
            command_view(outcome) == self@.addressed(
                guild_id,
                SendOpcodeView::Seek(Seek { position: millis_u64(time) }),
            ),
    {
        self.seek(guild_id, time)
    }

    /// Sets the volume of the guild's player. What exceeds 1000 is cut down
    /// to 1000.
    pub fn volume(&self, guild_id: GuildId, volume: u16) -> (outcome: LavalinkResult<Command>)
        ensures
            command_view(outcome) == self@.addressed(
                guild_id,
                SendOpcodeView::Volume(Volume { volume: clamped_volume(volume) }),
            ),
    {
        let payload = Volume::clamped(volume);
        self.inner.socket_sender.send(guild_id, SendOpcode::Volume(payload))
    }

    /// Sets all fifteen bands of the equalizer; the gain at position `i`
    /// goes to band `i`.
    pub fn equalize_all(&self, guild_id: GuildId, bands: [u64; 15]) -> (outcome: LavalinkResult<
        Command,
    >)
        ensures
            command_view(outcome) == self@.addressed(
                guild_id,
                SendOpcodeView::Equalizer(bands_of(bands@)),
            ),
    {
        let payload = Equalizer::all(&bands);
        self.inner.socket_sender.send(guild_id, SendOpcode::Equalizer(payload))
    }

    /// Sets the given bands of the equalizer; bands that are not named stay
    /// as they are.
    pub fn equalize_dynamic(&self, guild_id: GuildId, bands: Vec<Band>) -> (outcome: LavalinkResult<
        Command,
    >)
        ensures
            command_view(outcome) == self@.addressed(guild_id, SendOpcodeView::Equalizer(bands@)),
    {
        let payload = Equalizer { bands };
        self.inner.socket_sender.send(guild_id, SendOpcode::Equalizer(payload))
    }

    /// Sets one band of the equalizer.
    pub fn equalize_band(&self, guild_id: GuildId, band: Band) -> (outcome: LavalinkResult<
        Command,
    >)
        ensures
            command_view(outcome) == self@.addressed(
                guild_id,
                SendOpcodeView::Equalizer(seq![band]),
            ),
    {
        let payload = Equalizer::single(band);
        self.inner.socket_sender.send(guild_id, SendOpcode::Equalizer(payload))
    }

    /// Sets all fifteen bands of the equalizer back to a gain of zero.
    pub fn equalize_reset(&self, guild_id: GuildId) -> (outcome: LavalinkResult<Command>)
        ensures
            command_view(outcome) == self@.addressed(
                guild_id,
                SendOpcodeView::Equalizer(flat_bands()),
            ),
    {
        let payload = Equalizer::flat();
        self.inner.socket_sender.send(guild_id, SendOpcode::Equalizer(payload))
    }

    /// Creates a session for the guild of a complete voice connection.
    ///
    /// Returns the voice update that announces the connection, and makes
    /// sure the guild has a node: a fresh one unless it had one already.
    /// The node is served by no dispatcher until an item is queued.
    pub fn create_session_with_songbird(
        &mut self,
        connection_info: &SongbirdConnectionInfo,
    ) -> (outcome: LavalinkResult<Command>)
        ensures
            final(self)@ == old(self)@.session_opened(connection_info.guild_id),
            final(self).same_link(old(self)),
            command_view(outcome) == old(self)@.session_outcome(connection_info@),
    {
        let guild_id = connection_info.guild_id;
        let payload = connection_info.voice_update();
        let outcome = self.inner.socket_sender.send(guild_id, SendOpcode::VoiceUpdate(payload));
        if outcome.is_ok() {
            if !self.inner.nodes.contains_key(guild_id.0) {
                self.inner.nodes.insert(guild_id.0, Node::new(guild_id));
            }
        }
        outcome
    }

    /// Creates a session with what the voice gateway knows of the bot's
    /// voice connection.
    ///
    /// Fails with the first field that is still missing, looked for in the
    /// order token, endpoint, guild, session. With all of them in place it
    /// does what [`LavalinkClient::create_session_with_songbird`] does.
    pub fn create_session(&mut self, connection_info: &ConnectionInfo) -> (outcome: LavalinkResult<
        Command,
    >)
        ensures
            final(self)@ == old(self)@.gateway_session_opened(connection_info@),
            final(self).same_link(old(self)),
            command_view(outcome) == old(self)@.gateway_session_outcome(connection_info@),
    {
        match connection_info.complete() {
            Ok(connection) => self.create_session_with_songbird(&connection),
            Err(error) => Err(error),
        }
    }
}

} // verus!
