use vstd::prelude::*;
use crate::error::LavalinkError;
use crate::model::GuildId;
use crate::opcode::Event;
use crate::opcode::EventView;
use crate::opcode::VoiceUpdate;
use crate::opcode::VoiceUpdateView;
use crate::text::decimal;
use crate::text::strip_prefix;
use crate::text::to_decimal;
use crate::text::without_prefix;

verus! {

/// What the voice gateway has learnt so far about the bot's voice
/// connection in one guild. A field is empty until the gateway reported it.
#[derive(Debug, PartialEq, Eq)]
pub struct ConnectionInfo {
    pub guild_id: Option<GuildId>,
    pub endpoint: Option<String>,
    pub token: Option<String>,
    pub session_id: Option<String>,
}

/// Mathematical value of a [`ConnectionInfo`].
pub struct ConnectionInfoView {
    pub guild_id: Option<GuildId>,
    pub endpoint: Option<Seq<char>>,
    pub token: Option<Seq<char>>,
    pub session_id: Option<Seq<char>>,
}

impl View for ConnectionInfo {
    type V = ConnectionInfoView;

    open spec fn view(&self) -> ConnectionInfoView {
        ConnectionInfoView {
            guild_id: self.guild_id,
            endpoint: match self.endpoint {
                Some(endpoint) => Some(endpoint@),
                None => None,
            },
            token: match self.token {
                Some(token) => Some(token@),
                None => None,
            },
            session_id: match self.session_id {
                Some(session_id) => Some(session_id@),
                None => None,
            },
        }
    }
}

/// A complete voice connection, as a voice library that tracks it reports
/// it.
#[derive(Debug, PartialEq, Eq)]
pub struct SongbirdConnectionInfo {
    pub guild_id: GuildId,
    pub endpoint: String,
    pub session_id: String,
    pub token: String,
}

/// Mathematical value of a [`SongbirdConnectionInfo`].
pub struct SongbirdConnectionInfoView {
    pub guild_id: GuildId,
    pub endpoint: Seq<char>,
    pub session_id: Seq<char>,
    pub token: Seq<char>,
}

impl View for SongbirdConnectionInfo {
    type V = SongbirdConnectionInfoView;

    open spec fn view(&self) -> SongbirdConnectionInfoView {
        SongbirdConnectionInfoView {
            guild_id: self.guild_id,
            endpoint: self.endpoint@,
            session_id: self.session_id@,
            token: self.token@,
        }
    }
}

impl ConnectionInfoView {
    /// The first field that is still empty, in the order token, endpoint,
    /// guild, session.
    pub open spec fn missing_field(self) -> Option<&'static str> {
        if self.token is None {
            Some("token")
        } else if self.endpoint is None {
            Some("endpoint")
        } else if self.guild_id is None {
            Some("guild_id")
        } else if self.session_id is None {
            Some("session_id")
        } else {
            None
        }
    }

    /// The connection with every field in place. Meaningful where no field
    /// is missing.
    pub open spec fn complete(self) -> SongbirdConnectionInfoView {
        SongbirdConnectionInfoView {
            guild_id: self.guild_id->0,
            endpoint: self.endpoint->0,
            session_id: self.session_id->0,
            token: self.token->0,
        }
    }
}

impl SongbirdConnectionInfoView {
    /// The voice update that announces this connection to the server: the
    /// endpoint goes without a leading `wss://`, the guild in decimal.
    pub open spec fn voice_update(self) -> VoiceUpdateView {
        VoiceUpdateView {
            session_id: self.session_id,
            event: EventView {
                token: self.token,
                endpoint: without_prefix(self.endpoint, "wss://"@),
                guild_id: decimal(self.guild_id.0 as nat),
            },
        }
    }
}

impl ConnectionInfo {
    /// The complete connection, or the first field that is missing.
    pub fn complete(&self) -> (outcome: Result<SongbirdConnectionInfo, LavalinkError>)
        ensures
            match outcome {
                Ok(connection) => self@.missing_field() is None && connection@ == self@.complete(),
                Err(error) => self@.missing_field() matches Some(name)
                    && error == LavalinkError::MissingConnectionField(name),
            },
    {
        let token = match &self.token {
            Some(token) => token.clone(),
            None => return Err(LavalinkError::MissingConnectionField("token")),
        };
        let endpoint = match &self.endpoint {
            Some(endpoint) => endpoint.clone(),
            None => return Err(LavalinkError::MissingConnectionField("endpoint")),
        };
        let guild_id = match self.guild_id {
            Some(guild_id) => guild_id,
            None => return Err(LavalinkError::MissingConnectionField("guild_id")),
        };
        let session_id = match &self.session_id {
            Some(session_id) => session_id.clone(),
            None => return Err(LavalinkError::MissingConnectionField("session_id")),
        };
        Ok(SongbirdConnectionInfo { guild_id, endpoint, session_id, token })
    }
}

impl SongbirdConnectionInfo {
    /// The voice update that announces this connection to the server.
    pub fn voice_update(&self) -> (payload: VoiceUpdate)
        ensures
            payload@ == self@.voice_update(),
    {
        VoiceUpdate {
            session_id: self.session_id.clone(),
            event: Event {
                token: self.token.clone(),
                endpoint: strip_prefix(self.endpoint.as_str(), "wss://"),
                guild_id: to_decimal(self.guild_id.0),
            },
        }
    }
}

} // verus!
