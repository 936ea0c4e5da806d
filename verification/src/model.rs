use vstd::prelude::*;

verus! {

/// Identifier of a guild: the key of one independent playback context.
#[derive(Debug, Clone, Copy, PartialEq, Eq, Hash, Structural)]
pub struct GuildId(pub u64);

/// Identifier of a user, such as the bot itself or whoever requested a track.
#[derive(Debug, Clone, Copy, PartialEq, Eq, Hash, Structural)]
pub struct UserId(pub u64);

impl From<u64> for GuildId {
    fn from(id: u64) -> (guild: GuildId) {
        GuildId(id)
    }
}

impl vstd::std_specs::convert::FromSpecImpl<u64> for GuildId {
    open spec fn obeys_from_spec() -> bool {
        true
    }

    open spec fn from_spec(id: u64) -> GuildId {
        GuildId(id)
    }
}

impl From<u64> for UserId {
    fn from(id: u64) -> (user: UserId) {
        UserId(id)
    }
}

impl vstd::std_specs::convert::FromSpecImpl<u64> for UserId {
    open spec fn obeys_from_spec() -> bool {
        true
    }

    open spec fn from_spec(id: u64) -> UserId {
        UserId(id)
    }
}

/// Descriptive data the server reports for a track.
#[derive(Debug, PartialEq, Eq)]
pub struct Info {
    pub length: u64,
    pub author: String,
    pub title: String,
    pub uri: String,
    pub identifier: String,
    pub is_stream: bool,
    pub is_seekable: bool,
    pub position: u64,
}

/// Mathematical value of an [`Info`].
pub struct InfoView {
    pub length: u64,
    pub author: Seq<char>,
    pub title: Seq<char>,
    pub uri: Seq<char>,
    pub identifier: Seq<char>,
    pub is_stream: bool,
    pub is_seekable: bool,
    pub position: u64,
}

impl View for Info {
    type V = InfoView;

    open spec fn view(&self) -> InfoView {
        InfoView {
            length: self.length,
            author: self.author@,
            title: self.title@,
            uri: self.uri@,
            identifier: self.identifier@,
            is_stream: self.is_stream,
            is_seekable: self.is_seekable,
            position: self.position,
        }
    }
}

impl Clone for Info {
    fn clone(&self) -> (copy: Self)
        ensures
            copy@ == self@,
    {
        Info {
            length: self.length,
            author: self.author.clone(),
            title: self.title.clone(),
            uri: self.uri.clone(),
            identifier: self.identifier.clone(),
            is_stream: self.is_stream,
            is_seekable: self.is_seekable,
            position: self.position,
        }
    }
}

/// A playable track: the opaque encoded string the server understands, and
/// what is known about it.
#[derive(Debug, PartialEq, Eq)]
pub struct Track {
    pub track: String,
    pub info: Option<Info>,
}

/// Mathematical value of a [`Track`].
pub struct TrackView {
    pub track: Seq<char>,
    pub info: Option<InfoView>,
}

impl View for Track {
    type V = TrackView;

    open spec fn view(&self) -> TrackView {
        TrackView {
            track: self.track@,
            info: match self.info {
                Some(info) => Some(info@),
                None => None,
            },
        }
    }
}

impl Clone for Track {
    fn clone(&self) -> (copy: Self)
        ensures
            copy@ == self@,
    {
        let info = match &self.info {
            Some(info) => Some(info.clone()),
            None => None,
        };
        Track { track: self.track.clone(), info }
    }
}

/// One entry of a guild's queue. Offsets are in milliseconds.
#[derive(Debug, PartialEq, Eq)]
pub struct TrackQueue {
    pub track: Track,
    pub start_time: u64,
    pub end_time: Option<u64>,
    pub requester: Option<UserId>,
}

/// Mathematical value of a [`TrackQueue`].
pub struct TrackQueueView {
    pub track: TrackView,
    pub start_time: u64,
    pub end_time: Option<u64>,
    pub requester: Option<UserId>,
}

impl View for TrackQueue {
    type V = TrackQueueView;

    open spec fn view(&self) -> TrackQueueView {
        TrackQueueView {
            track: self.track@,
            start_time: self.start_time,
            end_time: self.end_time,
            requester: self.requester,
        }
    }
}

impl Clone for TrackQueue {
    fn clone(&self) -> (copy: Self)
        ensures
            copy@ == self@,
    {
        TrackQueue {
            track: self.track.clone(),
            start_time: self.start_time,
            end_time: self.end_time,
            requester: self.requester,
        }
    }
}

} // verus!
