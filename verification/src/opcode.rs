use vstd::prelude::*;
use crate::model::GuildId;

verus! {

/// Payload of a play command. Times are in milliseconds.
#[derive(Debug, PartialEq, Eq)]
pub struct Play {
    pub track: String,
    pub no_replace: bool,
    pub start_time: u64,
    pub end_time: Option<u64>,
}

/// Mathematical value of a [`Play`].
pub struct PlayView {
    pub track: Seq<char>,
    pub no_replace: bool,
    pub start_time: u64,
    pub end_time: Option<u64>,
}

impl View for Play {
    type V = PlayView;

    open spec fn view(&self) -> PlayView {
        PlayView {
            track: self.track@,
            no_replace: self.no_replace,
            start_time: self.start_time,
            end_time: self.end_time,
        }
    }
}

/// Payload of a pause command.
#[derive(Debug, Clone, Copy, PartialEq, Eq, Structural)]
pub struct Pause {
    pub pause: bool,
}

/// Payload of a seek command: the position in milliseconds.
#[derive(Debug, Clone, Copy, PartialEq, Eq, Structural)]
pub struct Seek {
    pub position: u64,
}

/// Payload of a volume command.
#[derive(Debug, Clone, Copy, PartialEq, Eq, Structural)]
pub struct Volume {
    pub volume: u16,
}

/// One band of the equalizer. The gain is carried as the bit pattern of an
/// IEEE 754 double, which this library never computes with.
#[derive(Debug, Clone, Copy, PartialEq, Eq, Structural)]
pub struct Band {
    pub band: u8,
    pub gain: u64,
}

/// Payload of an equalizer command: the bands to change.
#[derive(Debug, PartialEq, Eq)]
pub struct Equalizer {
    pub bands: Vec<Band>,
}

impl View for Equalizer {
    type V = Seq<Band>;

    open spec fn view(&self) -> Seq<Band> {
        self.bands@
    }
}

/// The voice server data inside a voice update.
#[derive(Debug, PartialEq, Eq)]
pub struct Event {
    pub token: String,
    pub endpoint: String,
    pub guild_id: String,
}

/// Mathematical value of an [`Event`].
pub struct EventView {
    pub token: Seq<char>,
    pub endpoint: Seq<char>,
    pub guild_id: Seq<char>,
}

impl View for Event {
    type V = EventView;

    open spec fn view(&self) -> EventView {
        EventView { token: self.token@, endpoint: self.endpoint@, guild_id: self.guild_id@ }
    }
}

/// Payload of a voice update.
#[derive(Debug, PartialEq, Eq)]
pub struct VoiceUpdate {
    pub session_id: String,
    pub event: Event,
}

/// Mathematical value of a [`VoiceUpdate`].
pub struct VoiceUpdateView {
    pub session_id: Seq<char>,
    pub event: EventView,
}

impl View for VoiceUpdate {
    type V = VoiceUpdateView;

    open spec fn view(&self) -> VoiceUpdateView {
        VoiceUpdateView { session_id: self.session_id@, event: self.event@ }
    }
}

/// A command for the audio node, by its tag.
#[derive(Debug, PartialEq, Eq)]
pub enum SendOpcode {
    Play(Play),
    Stop,
    Pause(Pause),
    Seek(Seek),
    Volume(Volume),
    Equalizer(Equalizer),
    Destroy,
    VoiceUpdate(VoiceUpdate),
}

/// Mathematical value of a [`SendOpcode`].
pub enum SendOpcodeView {
    Play(PlayView),
    Stop,
    Pause(Pause),
    Seek(Seek),
    Volume(Volume),
    Equalizer(Seq<Band>),
    Destroy,
    VoiceUpdate(VoiceUpdateView),
}

impl View for SendOpcode {
    type V = SendOpcodeView;

    open spec fn view(&self) -> SendOpcodeView {
        match self {
            SendOpcode::Play(play) => SendOpcodeView::Play(play@),
            SendOpcode::Stop => SendOpcodeView::Stop,
            SendOpcode::Pause(pause) => SendOpcodeView::Pause(*pause),
            SendOpcode::Seek(seek) => SendOpcodeView::Seek(*seek),
            SendOpcode::Volume(volume) => SendOpcodeView::Volume(*volume),
            SendOpcode::Equalizer(equalizer) => SendOpcodeView::Equalizer(equalizer@),
            SendOpcode::Destroy => SendOpcodeView::Destroy,
            SendOpcode::VoiceUpdate(update) => SendOpcodeView::VoiceUpdate(update@),
        }
    }
}

/// A command together with the guild it is addressed to: what goes out on
/// the socket.
#[derive(Debug, PartialEq, Eq)]
pub struct Command {
    pub guild_id: GuildId,
    pub opcode: SendOpcode,
}

/// Mathematical value of a [`Command`].
pub struct CommandView {
    pub guild_id: GuildId,
    pub opcode: SendOpcodeView,
}

impl View for Command {
    type V = CommandView;

    open spec fn view(&self) -> CommandView {
        CommandView { guild_id: self.guild_id, opcode: self.opcode@ }
    }
}


/// The loudest volume the server accepts.
pub const MAX_VOLUME: u16 = 1000;

/// How many bands the equalizer has.
pub const BAND_COUNT: usize = 15;

/// The volume brought into the range the server accepts.
pub open spec fn clamped_volume(volume: u16) -> u16 {
    if volume > MAX_VOLUME {
        MAX_VOLUME
    } else {
        volume
    }
}

/// The end of a play command for a requested finish time: zero stands for
/// "play to the end".
pub open spec fn end_time_of(finish: u64) -> Option<u64> {
    if finish == 0 {
        None
    } else {
        Some(finish)
    }
}

/// One band for each gain, numbered from zero in the order given.
pub open spec fn bands_of(gains: Seq<u64>) -> Seq<Band> {
    Seq::new(gains.len(), |i: int| Band { band: i as u8, gain: gains[i] })
}

/// All fifteen bands with a gain of zero.
pub open spec fn flat_bands() -> Seq<Band> {
    Seq::new(BAND_COUNT as nat, |i: int| Band { band: i as u8, gain: 0 })
}

/// The end time that stands for a requested finish time.
pub fn end_time(finish: u64) -> (end: Option<u64>)
    ensures
        end == end_time_of(finish),
{
    if finish == 0 {
        None
    } else {
        Some(finish)
    }
}

impl Volume {
    /// A volume payload; what exceeds the maximum is cut down to it.
    pub fn clamped(volume: u16) -> (payload: Self)
        ensures
            payload.volume == clamped_volume(volume),
            payload.volume <= MAX_VOLUME,
    {
        if volume > MAX_VOLUME {
            Volume { volume: MAX_VOLUME }
        } else {
            Volume { volume }
        }
    }
}

impl Equalizer {
    /// Sets every band: the gain at position `i` goes to band `i`.
    pub fn all(gains: &[u64; 15]) -> (payload: Self)
        ensures
            payload@ == bands_of(gains@),
    {
        let mut bands: Vec<Band> = Vec::new();
        let mut i: u8 = 0;
        while i < 15
            invariant
                i <= 15,
                bands@.len() == i,
                forall|j: int| 0 <= j < i ==> bands@[j] == (Band { band: j as u8, gain: gains@[j] }),
            decreases 15 - i,
        {
            bands.push(Band { band: i, gain: gains[i as usize] });
            i += 1;
        }
        assert(bands@ =~= bands_of(gains@));
        Equalizer { bands }
    }

    /// Sets every band back to a gain of zero.
    pub fn flat() -> (payload: Self)
        ensures
            payload@ == flat_bands(),
    {
        let mut bands: Vec<Band> = Vec::new();
        let mut i: u8 = 0;
        while i < 15
            invariant
                i <= 15,
                bands@.len() == i,
                forall|j: int| 0 <= j < i ==> bands@[j] == (Band { band: j as u8, gain: 0 }),
            decreases 15 - i,
        {
            bands.push(Band { band: i, gain: 0 });
            i += 1;
        }
        assert(bands@ =~= flat_bands());
        Equalizer { bands }
    }

    /// Sets one band and leaves the others as they are.
    pub fn single(band: Band) -> (payload: Self)
        ensures
            payload@ == seq![band],
    {
        let mut bands: Vec<Band> = Vec::new();
        bands.push(band);
        assert(bands@ =~= seq![band]);
        Equalizer { bands }
    }
}

} // verus!
