use vstd::prelude::*;
use vstd::string::StringExecFns;
use std::time::Duration;
use crate::client::LavalinkClient;
use crate::error::LavalinkError;
use crate::error::LavalinkResult;
use crate::model::GuildId;
use crate::model::Track;
use crate::model::TrackQueue;
use crate::model::TrackQueueView;
use crate::model::TrackView;
use crate::model::UserId;
use crate::opcode::end_time;
use crate::opcode::end_time_of;
use crate::opcode::Command;
use crate::opcode::Play;
use crate::opcode::PlayView;
use crate::opcode::SendOpcode;
use crate::opcode::SendOpcodeView;
use crate::state::command_view;
use crate::state::QueueOutcome;
use crate::time::duration_millis;
use crate::time::millis_u64;
use crate::time::whole_secs;
use crate::time::subsec_nanos;

verus! {

/// What is needed to reach a Lavalink server and to identify the bot to it.
#[derive(Debug, PartialEq, Eq)]
pub struct LavalinkClientBuilder {
    pub host: String,
    pub port: u16,
    pub password: String,
    pub shard_count: u64,
    pub bot_id: UserId,
    pub is_ssl: bool,
    pub bot_token: String,
    pub start_gateway: bool,
    pub gateway_start_wait_time: Duration,
}

/// Mathematical value of a [`LavalinkClientBuilder`].
pub struct LavalinkClientBuilderView {
    pub host: Seq<char>,
    pub port: u16,
    pub password: Seq<char>,
    pub shard_count: u64,
    pub bot_id: UserId,
    pub is_ssl: bool,
    pub bot_token: Seq<char>,
    pub start_gateway: bool,
    pub gateway_start_wait_time: Duration,
}

impl View for LavalinkClientBuilder {
    type V = LavalinkClientBuilderView;

    open spec fn view(&self) -> LavalinkClientBuilderView {
        LavalinkClientBuilderView {
            host: self.host@,
            port: self.port,
            password: self.password@,
            shard_count: self.shard_count,
            bot_id: self.bot_id,
            is_ssl: self.is_ssl,
            bot_token: self.bot_token@,
            start_gateway: self.start_gateway,
            gateway_start_wait_time: self.gateway_start_wait_time,
        }
    }
}

impl LavalinkClientBuilderView {
    /// The settings a builder starts with: host `localhost`, port 2333,
    /// password `youshallnotpass`, one shard, no SSL, and the voice gateway
    /// started after the given wait.
    pub open spec fn initial(bot_id: UserId, bot_token: Seq<char>, wait: Duration) -> Self {
        LavalinkClientBuilderView {
            host: "localhost"@,
            port: 2333,
            password: "youshallnotpass"@,
            shard_count: 1,
            bot_id,
            is_ssl: false,
            bot_token,
            start_gateway: true,
            gateway_start_wait_time: wait,
        }
    }
}

impl LavalinkClientBuilder {
    /// A builder for the given bot, with the usual settings of a local
    /// server: host `localhost`, port 2333, password `youshallnotpass`, one
    /// shard, no SSL, and the voice gateway started after six seconds.
    pub fn new(bot_id: UserId, bot_token: &str) -> (builder: Self)
        ensures
            builder@ == LavalinkClientBuilderView::initial(bot_id, bot_token@, builder.gateway_start_wait_time),
            whole_secs(builder.gateway_start_wait_time) == 6,
            subsec_nanos(builder.gateway_start_wait_time) == 0,
    {
        LavalinkClientBuilder {
            host: String::from_str("localhost"),
            port: 2333,
            password: String::from_str("youshallnotpass"),
            shard_count: 1,
            bot_id,
            is_ssl: false,
            bot_token: String::from_str(bot_token),
            start_gateway: true,
            gateway_start_wait_time: Duration::from_secs(6),
        }
    }

    /// Sets the host.
    pub fn set_host(&mut self, host: &str) -> (this: &mut Self)
        ensures
            this@ == (LavalinkClientBuilderView { host: host@, ..old(self)@ }),
            *final(self) == *final(this),
    {
        self.host = String::from_str(host);
        self
    }

    /// Sets the port.
    pub fn set_port(&mut self, port: u16) -> (this: &mut Self)
        ensures
            this@ == (LavalinkClientBuilderView { port, ..old(self)@ }),
            *final(self) == *final(this),
    {
        self.port = port;
        self
    }

    /// Sets the number of shards.
    pub fn set_shard_count(&mut self, shard_count: u64) -> (this: &mut Self)
        ensures
            this@ == (LavalinkClientBuilderView { shard_count, ..old(self)@ }),
            *final(self) == *final(this),
    {
        self.shard_count = shard_count;
        self
    }

    /// Sets the ID of the bot.
    pub fn set_bot_id(&mut self, bot_id: UserId) -> (this: &mut Self)
        ensures
            this@ == (LavalinkClientBuilderView { bot_id, ..old(self)@ }),
            *final(self) == *final(this),
    {
        self.bot_id = bot_id;
        self
    }

    /// Sets the token of the bot.
    pub fn set_bot_token(&mut self, bot_token: &str) -> (this: &mut Self)
        ensures
            this@ == (LavalinkClientBuilderView { bot_token: bot_token@, ..old(self)@ }),
            *final(self) == *final(this),
    {
        self.bot_token = String::from_str(bot_token);
        self
    }

    /// Sets whether the server is reached over SSL.
    pub fn set_is_ssl(&mut self, is_ssl: bool) -> (this: &mut Self)
        ensures
            this@ == (LavalinkClientBuilderView { is_ssl, ..old(self)@ }),
            *final(self) == *final(this),
    {
        self.is_ssl = is_ssl;
        self
    }

    /// Sets the password of the server.
    pub fn set_password(&mut self, password: &str) -> (this: &mut Self)
        ensures
            this@ == (LavalinkClientBuilderView { password: password@, ..old(self)@ }),
            *final(self) == *final(this),
    {
        self.password = String::from_str(password);
        self
    }

    /// Sets whether the voice gateway is started together with the client.
    pub fn set_start_gateway(&mut self, start_gateway: bool) -> (this: &mut Self)
        ensures
            this@ == (LavalinkClientBuilderView { start_gateway, ..old(self)@ }),
            *final(self) == *final(this),
    {
        self.start_gateway = start_gateway;
        self
    }

    /// Sets how long to wait before the voice gateway is first connected.
    pub fn set_gateway_start_wait_time(&mut self, time: Duration) -> (this: &mut Self)
        ensures
            this@ == (LavalinkClientBuilderView { gateway_start_wait_time: time, ..old(self)@ }),
            *final(self) == *final(this),
    {
        self.gateway_start_wait_time = time;
        self
    }

    /// Builds the client that this builder describes.
    pub fn build<S>(&self) -> (outcome: LavalinkResult<LavalinkClient<S>>)
        ensures
            match outcome {
                Ok(client) => self@.presentable() && client.inner.made_from(self@),
                Err(error) => !self@.presentable() && error
                    == LavalinkError::InvalidHeaderValue("Authorization"),
            },
    {
        LavalinkClient::new(self)
    }
}

/// A request to play a track in a guild, before it is sent or queued.
/// Times are in milliseconds; a finish time of zero means the end of the
/// track.
#[derive(Debug, PartialEq, Eq)]
pub struct PlayParameters {
    pub track: Track,
    pub replace: bool,
    pub start: u64,
    pub finish: u64,
    pub guild_id: u64,
    pub requester: Option<UserId>,
}

/// Mathematical value of a [`PlayParameters`].
pub struct PlayParametersView {
    pub track: TrackView,
    pub replace: bool,
    pub start: u64,
    pub finish: u64,
    pub guild_id: u64,
    pub requester: Option<UserId>,
}

impl View for PlayParameters {
    type V = PlayParametersView;

    open spec fn view(&self) -> PlayParametersView {
        PlayParametersView {
            track: self.track@,
            replace: self.replace,
            start: self.start,
            finish: self.finish,
            guild_id: self.guild_id,
            requester: self.requester,
        }
    }
}

impl PlayParametersView {
    /// The request for a track with nothing else asked for: from the
    /// start to the end, without replacing what plays.
    pub open spec fn plain(guild_id: GuildId, track: TrackView) -> Self {
        PlayParametersView {
            track,
            replace: false,
            start: 0,
            finish: 0,
            guild_id: guild_id.0,
            requester: None,
        }
    }

    /// The play payload of the request.
    pub open spec fn play(self) -> PlayView {
        PlayView {
            track: self.track.track,
            no_replace: !self.replace,
            start_time: self.start,
            end_time: end_time_of(self.finish),
        }
    }

    /// The queue entry of the request.
    pub open spec fn track_queue(self) -> TrackQueueView {
        TrackQueueView {
            track: self.track,
            start_time: self.start,
            end_time: end_time_of(self.finish),
            requester: self.requester,
        }
    }
}

impl PlayParameters {
    /// The command that plays the track right away.
    pub fn start<S>(&self, client: &LavalinkClient<S>) -> (outcome: LavalinkResult<Command>)
        ensures
            command_view(outcome) == client@.addressed(
                GuildId(self.guild_id),
                SendOpcodeView::Play(self@.play()),
            ),
    {
        let payload = Play {
            track: self.track.track.clone(),
            no_replace: !self.replace,
            start_time: self.start,
            end_time: end_time(self.finish),
        };
        client.inner.socket_sender.send(GuildId(self.guild_id), SendOpcode::Play(payload))
    }

    /// Adds the track to the queue of its guild.
    ///
    /// The guild needs a session. Where no dispatcher serves the guild yet,
    /// the guild joins the client's active loops and the caller is asked to
    /// start one.
    pub fn queue<S>(&self, client: &mut LavalinkClient<S>) -> (outcome: LavalinkResult<
        QueueOutcome,
    >)
        ensures
            final(client)@ == old(client)@.enqueued(GuildId(self.guild_id), self@.track_queue()),
            final(client).same_link(old(client)),
            outcome == old(client)@.enqueue_outcome(GuildId(self.guild_id)),
    {
        client.enqueue(GuildId(self.guild_id), self.to_track_queue())
    }

    /// The queue entry of the request.
    pub fn to_track_queue(&self) -> (item: TrackQueue)
        ensures
            item@ == self@.track_queue(),
    {
        TrackQueue {
            track: self.track.clone(),
            start_time: self.start,
            end_time: end_time(self.finish),
            requester: self.requester,
        }
    }

    /// Sets who requested the track.
    pub fn requester(&mut self, requester: UserId) -> (this: &mut Self)
        ensures
            this@ == (PlayParametersView { requester: Some(requester), ..old(self)@ }),
            *final(self) == *final(this),
    {
        self.requester = Some(requester);
        self
    }

    /// Sets whether the track replaces the one that plays.
    pub fn replace(&mut self, replace: bool) -> (this: &mut Self)
        ensures
            this@ == (PlayParametersView { replace, ..old(self)@ }),
            *final(self) == *final(this),
    {
        self.replace = replace;
        self
    }

    /// Sets where in the track playback starts.
    pub fn start_time(&mut self, start: Duration) -> (this: &mut Self)
        ensures
            this@ == (PlayParametersView { start: millis_u64(start), ..old(self)@ }),
            *final(self) == *final(this),
    {
        self.start = duration_millis(start);
        self
    }

    /// Sets where in the track playback ends.
    ///
    /// The server reports such an end as stopped, not as finished, so the
    /// entry stays at the head of the queue until it is skipped.
    pub fn finish_time(&mut self, finish: Duration) -> (this: &mut Self)
        ensures
            this@ == (PlayParametersView { finish: millis_u64(finish), ..old(self)@ }),
            *final(self) == *final(this),
    {
        self.finish = duration_millis(finish);
        self
    }
}

} // verus!
