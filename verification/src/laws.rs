use vstd::prelude::*;
use crate::builders::PlayParametersView;
use crate::error::LavalinkError;
use crate::model::GuildId;
use crate::model::TrackQueueView;
use crate::opcode::clamped_volume;
use crate::opcode::flat_bands;
use crate::opcode::CommandView;
use crate::opcode::SendOpcodeView;
use crate::opcode::MAX_VOLUME;
use crate::reactor::LavalinkEvent;
use crate::state::play_of;
use crate::state::ClientView;
use crate::state::QueueOutcome;
use crate::state::TickView;

verus! {

/// Queueing for a guild without a session fails for want of a session and
/// changes nothing.
pub proof fn enqueue_needs_session(client: ClientView, guild: GuildId, item: TrackQueueView)
    requires
        !client.has_session(guild),
    ensures
        client.enqueue_outcome(guild) == Err::<QueueOutcome, LavalinkError>(
            LavalinkError::NoSessionPresent,
        ),
        client.enqueued(guild, item) == client,
{
}

/// On a new session, the first item queued asks for a dispatcher and puts
/// the guild among the active loops; the second asks for none, and the
/// queue holds both items in the order they came.
pub proof fn first_enqueue_starts_the_only_dispatcher(
    client: ClientView,
    guild: GuildId,
    first: TrackQueueView,
    second: TrackQueueView,
)
    requires
        client.connected,
        !client.has_session(guild),
    ensures
        ({
            let opened = client.session_opened(guild);
            let once = opened.enqueued(guild, first);
            let twice = once.enqueued(guild, second);
            &&& opened.has_session(guild)
            &&& opened.enqueue_outcome(guild) == Ok::<QueueOutcome, LavalinkError>(
                QueueOutcome::StartDispatcher,
            )
            &&& once.loops == client.loops.insert(guild.0)
            &&& once.enqueue_outcome(guild) == Ok::<QueueOutcome, LavalinkError>(
                QueueOutcome::Queued,
            )
            &&& twice.loops == once.loops
            &&& twice.node(guild).queue == seq![first, second]
        }),
{
    let opened = client.session_opened(guild);
    let once = opened.enqueued(guild, first);
    let twice = once.enqueued(guild, second);
    assert(twice.node(guild).queue =~= seq![first, second]);
}

/// A dispatcher is asked for exactly when the node was served by none, and
/// from then on the node counts as served.
pub proof fn dispatcher_is_asked_for_once(client: ClientView, guild: GuildId, item: TrackQueueView)
    requires
        client.has_session(guild),
    ensures
        client.enqueue_outcome(guild) == Ok::<QueueOutcome, LavalinkError>(
            QueueOutcome::StartDispatcher,
        ) <==> !client.node(guild).is_on_loops,
        client.enqueued(guild, item).node(guild).is_on_loops,
        client.enqueued(guild, item).enqueue_outcome(guild) == Ok::<QueueOutcome, LavalinkError>(
            QueueOutcome::Queued,
        ),
{
}

/// The dispatcher plays the head of the queue, and only while nothing
/// counts as playing: a wake that sends a command finds nothing playing and
/// sends the play command of the first entry.
pub proof fn play_goes_out_only_when_idle(client: ClientView, guild: GuildId)
    ensures
        client.tick_outcome(guild) matches TickView::Send(command) ==> {
            &&& client.has_session(guild)
            &&& client.node(guild).now_playing is None
            &&& client.node(guild).queue.len() > 0
            &&& command == (CommandView {
                guild_id: guild,
                opcode: SendOpcodeView::Play(play_of(client.node(guild).queue[0])),
            })
        },
        client.has_session(guild) && client.node(guild).now_playing is Some ==> {
            &&& client.tick_outcome(guild) == TickView::Idle
            &&& client.ticked(guild) == client
        },
{
    if client.has_session(guild) && client.node(guild).now_playing is Some {
        assert(client.ticked(guild).nodes =~= client.nodes);
    }
}

/// After a wake that made an entry the playing one, further wakes send
/// nothing and change nothing, however many follow.
pub proof fn head_is_played_once(client: ClientView, guild: GuildId)
    requires
        client.has_session(guild),
        client.node(guild).due(),
        client.connected,
    ensures
        client.ticked(guild).node(guild).now_playing == Some(client.node(guild).queue[0]),
        client.ticked(guild).node(guild).queue == client.node(guild).queue,
        client.ticked(guild).tick_outcome(guild) == TickView::Idle,
        client.ticked(guild).ticked(guild) == client.ticked(guild),
{
    let after = client.ticked(guild);
    assert(after.ticked(guild).nodes =~= after.nodes);
}

/// A wake that finds an entry due but no socket session changes nothing
/// and sends nothing; once a session is attached again, the next wake
/// plays that same entry.
pub proof fn unsent_play_is_tried_again(client: ClientView, guild: GuildId)
    requires
        client.has_session(guild),
        client.node(guild).due(),
        !client.connected,
    ensures
        client.tick_outcome(guild) == TickView::Unsent(LavalinkError::MissingLavalinkSocket),
        client.ticked(guild) == client,
        client.ticked(guild).reconnected().tick_outcome(guild) == TickView::Send(
            CommandView {
                guild_id: guild,
                opcode: SendOpcodeView::Play(play_of(client.node(guild).queue[0])),
            },
        ),
        client.ticked(guild).reconnected().ticked(guild).node(guild).now_playing == Some(
            client.node(guild).queue[0],
        ),
{
}

/// A play command that was addressed but could not be transmitted is
/// tried again too: once the failure is taken note of, the queue is as it
/// was and the next wake plays the same entry.
pub proof fn failed_play_is_tried_again(client: ClientView, guild: GuildId)
    requires
        client.has_session(guild),
        client.node(guild).due(),
        client.connected,
    ensures
        client.ticked(guild).play_failed(guild).node(guild) == client.node(guild),
        client.ticked(guild).play_failed(guild).tick_outcome(guild) == client.tick_outcome(guild),
{
}

/// Whether a wake sends a command, fails to, or rests, it never leaves an
/// entry playing that no command was addressed for.
pub proof fn nothing_plays_unannounced(client: ClientView, guild: GuildId)
    requires
        client.has_session(guild),
        client.node(guild).now_playing is None,
    ensures
        client.ticked(guild).node(guild).now_playing is Some <==> client.tick_outcome(guild)
            is Send,
{
}

/// A pause flag follows the pause commands that are issued: a call that
/// issues none, for want of a session or of a socket, changes nothing, and
/// a call that issues one sets the flag to what the command says.
pub proof fn pause_flag_mirrors_issued_commands(client: ClientView, guild: GuildId, pause: bool)
    ensures
        client.pause_outcome(guild, pause) is Err ==> client.paused(guild, pause) == client,
        client.pause_outcome(guild, pause) is Ok ==> {
            &&& client.paused(guild, pause).node(guild).is_paused == pause
            &&& client.paused(guild, pause).node(guild) == client.node(guild).paused(pause)
        },
        client.pause_outcome(guild, pause) is Ok <==> client.has_session(guild)
            && client.connected,
{
}

/// A skip leaves nothing playing, returns the first entry and removes it;
/// the entries behind it keep their order, and the next wake of the
/// dispatcher plays the entry that now stands first.
pub proof fn skip_moves_to_the_next_entry(client: ClientView, guild: GuildId)
    requires
        client.has_session(guild),
        client.node(guild).queue.len() > 0,
    ensures
        client.skip_result(guild) == Some(client.node(guild).queue[0]),
        client.skipped(guild).node(guild).now_playing is None,
        client.skipped(guild).node(guild).queue == client.node(guild).queue.subrange(
            1,
            client.node(guild).queue.len() as int,
        ),
        client.skipped(guild).loops == client.loops,
        client.node(guild).queue.len() > 1 && client.connected ==> client.skipped(
            guild,
        ).tick_outcome(guild) == TickView::Send(
            CommandView {
                guild_id: guild,
                opcode: SendOpcodeView::Play(play_of(client.node(guild).queue[1])),
            },
        ),
        client.node(guild).queue.len() == 1 ==> client.skipped(guild).tick_outcome(guild)
            == TickView::Idle,
{
    let queue = client.node(guild).queue;
    assert(queue.remove(0) =~= queue.subrange(1, queue.len() as int));
}

/// A skip of a queue of two entries leaves the second one alone.
pub proof fn skip_of_two_leaves_the_second(
    client: ClientView,
    guild: GuildId,
    first: TrackQueueView,
    second: TrackQueueView,
)
    requires
        client.has_session(guild),
        client.node(guild).queue == seq![first, second],
    ensures
        client.skip_result(guild) == Some(first),
        client.skipped(guild).node(guild).queue == seq![second],
        client.skipped(guild).node(guild).now_playing is None,
{
    assert(seq![first, second].remove(0) =~= seq![second]);
}

/// No volume above the maximum goes out, and a volume within the range
/// goes out as it is.
pub proof fn volume_stays_in_range(volume: u16)
    ensures
        clamped_volume(volume) <= MAX_VOLUME,
        volume <= MAX_VOLUME ==> clamped_volume(volume) == volume,
        volume > MAX_VOLUME ==> clamped_volume(volume) == MAX_VOLUME,
{
}

/// A reset of the equalizer names each of the fifteen bands once, in
/// order, with a gain of zero.
pub proof fn reset_names_every_band()
    ensures
        flat_bands().len() == 15,
        forall|i: int| 0 <= i < 15 ==> (#[trigger] flat_bands()[i]).band == i && flat_bands()[i].gain == 0,
{
}

/// Destroying a player leaves nothing playing and drops the first entry of
/// the queue, yet keeps the node in the registry and the guild among the
/// active loops. Without a socket session it changes nothing.
pub proof fn destroy_keeps_node_and_loop(client: ClientView, guild: GuildId)
    ensures
        client.destroyed(guild).loops == client.loops,
        client.destroyed(guild).nodes.dom() == client.nodes.dom(),
        client.destroyed(guild).connected == client.connected,
        client.connected && client.has_session(guild) ==> {
            &&& client.destroyed(guild).node(guild).now_playing is None
            &&& client.destroyed(guild).node(guild).queue == client.node(guild).tail()
            &&& client.destroyed(guild).node(guild).is_on_loops == client.node(guild).is_on_loops
        },
        !client.connected ==> client.destroyed(guild) == client,
{
    assert(client.destroyed(guild).nodes.dom() =~= client.nodes.dom());
}

/// A request with a finish time of zero plays to the end of the track;
/// any other finish time is the end of playback. This holds of the play
/// command and of the queue entry alike.
pub proof fn finish_zero_means_no_end(request: PlayParametersView)
    ensures
        request.finish == 0 ==> request.play().end_time is None && request.track_queue().end_time
            is None,
        request.finish > 0 ==> request.play().end_time == Some(request.finish)
            && request.track_queue().end_time == Some(request.finish),
        request.play().start_time == request.start,
        request.play().no_replace == !request.replace,
{
}

/// An event for a guild without a node changes nothing, and so does any
/// event that is no end of a track.
pub proof fn events_without_node_change_nothing(client: ClientView, event: LavalinkEvent)
    ensures
        (event matches LavalinkEvent::TrackEnd(guild, _) && !client.has_session(guild))
            ==> client.after_event(event) == client,
        (event matches LavalinkEvent::TrackException(guild) && !client.has_session(guild))
            ==> client.after_event(event) == client,
        (event matches LavalinkEvent::TrackStuck(guild) && !client.has_session(guild))
            ==> client.after_event(event) == client,
        !(event is TrackEnd || event is TrackException || event is TrackStuck)
            ==> client.after_event(event) == client,
{
}

/// Whatever ends a track frees the dispatcher: nothing counts as playing
/// afterwards, so an entry that waits is due at the next wake.
pub proof fn track_end_frees_the_dispatcher(client: ClientView, guild: GuildId, finished: bool)
    requires
        client.has_session(guild),
    ensures
        client.track_ended(guild, finished).node(guild).now_playing is None,
        client.track_ended(guild, finished).node(guild).queue == if finished {
            client.node(guild).tail()
        } else {
            client.node(guild).queue
        },
        client.track_ended(guild, finished).track_ended(guild, false) == client.track_ended(
            guild,
            finished,
        ),
{
    let once = client.track_ended(guild, finished);
    assert(once.track_ended(guild, false).nodes =~= once.nodes);
}

/// Losing the socket session and getting a new one touches neither the
/// nodes nor the active loops.
pub proof fn nodes_survive_reconnect(client: ClientView)
    ensures
        client.disconnected().nodes == client.nodes,
        client.disconnected().loops == client.loops,
        !client.disconnected().connected,
        client.disconnected().reconnected().nodes == client.nodes,
        client.disconnected().reconnected().loops == client.loops,
        client.disconnected().reconnected().connected,
{
}


/// Everything that can happen to the state of a client.
pub enum Transition {
    OpenSession(GuildId),
    Enqueue(GuildId, TrackQueueView),
    Skip(GuildId),
    Destroy(GuildId),
    SetPause(GuildId, bool),
    Dispatch(GuildId),
    PlayFailed(GuildId),
    Event(LavalinkEvent),
    ConnectionLost,
    ConnectionRestored,
}

impl ClientView {
    /// The state after the transition.
    pub open spec fn after(self, transition: Transition) -> ClientView {
        match transition {
            Transition::OpenSession(guild) => self.session_opened(guild),
            Transition::Enqueue(guild, item) => self.enqueued(guild, item),
            Transition::Skip(guild) => self.skipped(guild),
            Transition::Destroy(guild) => self.destroyed(guild),
            Transition::SetPause(guild, pause) => self.paused(guild, pause),
            Transition::Dispatch(guild) => self.ticked(guild),
            Transition::PlayFailed(guild) => self.play_failed(guild),
            Transition::Event(event) => self.after_event(event),
            Transition::ConnectionLost => self.disconnected(),
            Transition::ConnectionRestored => self.reconnected(),
        }
    }

    /// Whether every node is filed under the guild it names.
    pub open spec fn filed_by_guild(self) -> bool {
        forall|key: u64| #[trigger] self.nodes.contains_key(key) ==> self.nodes[key].guild.0 == key
    }

    /// Whether every node that counts as served by a dispatcher belongs to
    /// a guild among the active loops.
    pub open spec fn served_nodes_on_loops(self) -> bool {
        forall|key: u64| #[trigger]
            self.nodes.contains_key(key) && self.nodes[key].is_on_loops ==> self.loops.contains(key)
    }
}

/// A guild gets a node when a session is opened for it over an attached
/// socket, and in no other way; and no transition takes a node away.
pub proof fn sessions_alone_add_nodes(client: ClientView, transition: Transition)
    ensures
        client.after(transition).nodes.dom() == match transition {
            Transition::OpenSession(guild) => if client.connected {
                client.nodes.dom().insert(guild.0)
            } else {
                client.nodes.dom()
            },
            _ => client.nodes.dom(),
        },
{
    let after = client.after(transition);
    match transition {
        Transition::OpenSession(guild) => {
            if client.connected {
                assert(after.nodes.dom() =~= client.nodes.dom().insert(guild.0));
            }
        },
        _ => {
            assert(after.nodes.dom() =~= client.nodes.dom());
        },
    }
}

/// A node keeps its guild for as long as it exists, and a new node is
/// filed under the guild it names.
pub proof fn nodes_stay_filed_by_guild(client: ClientView, transition: Transition)
    requires
        client.filed_by_guild(),
    ensures
        client.after(transition).filed_by_guild(),
        forall|guild: GuildId| #[trigger]
            client.has_session(guild) ==> client.after(transition).node(guild).guild
                == client.node(guild).guild,
{
}

/// A queue changes at its ends only: a transition leaves it as it is,
/// appends one entry or removes the first one. Entries never change
/// places.
pub proof fn queues_change_at_their_ends(
    client: ClientView,
    transition: Transition,
    guild: GuildId,
)
    requires
        client.has_session(guild),
    ensures
        ({
            let before = client.node(guild).queue;
            let after = client.after(transition).node(guild).queue;
            ||| after == before
            ||| (transition matches Transition::Enqueue(g, item) && g == guild && after
                == before.push(item))
            ||| (before.len() > 0 && after == before.subrange(1, before.len() as int))
        }),
{
    let before = client.node(guild).queue;
    if before.len() > 0 {
        assert(before.remove(0) =~= before.subrange(1, before.len() as int));
    }
}

/// What one guild does never touches the node of another.
pub proof fn guilds_do_not_interfere(client: ClientView, transition: Transition, other: GuildId)
    requires
        client.has_session(other),
        match transition {
            Transition::OpenSession(guild) => guild != other,
            Transition::Enqueue(guild, _) => guild != other,
            Transition::Skip(guild) => guild != other,
            Transition::Destroy(guild) => guild != other,
            Transition::SetPause(guild, _) => guild != other,
            Transition::Dispatch(guild) => guild != other,
            Transition::PlayFailed(guild) => guild != other,
            Transition::Event(LavalinkEvent::TrackEnd(guild, _)) => guild != other,
            Transition::Event(LavalinkEvent::TrackException(guild)) => guild != other,
            Transition::Event(LavalinkEvent::TrackStuck(guild)) => guild != other,
            _ => true,
        },
    ensures
        client.after(transition).node(other) == client.node(other),
{
}

/// No transition takes a guild out of the active loops, and none but the
/// first queueing for a node puts one in.
pub proof fn loops_only_grow(client: ClientView, transition: Transition)
    ensures
        client.loops.subset_of(client.after(transition).loops),
        client.after(transition).loops == match transition {
            Transition::Enqueue(guild, _) => if client.has_session(guild) && !client.node(
                guild,
            ).is_on_loops {
                client.loops.insert(guild.0)
            } else {
                client.loops
            },
            _ => client.loops,
        },
{
}

/// A node that counts as served by a dispatcher goes on counting so, and
/// its guild stays among the active loops.
pub proof fn served_nodes_stay_served(client: ClientView, transition: Transition)
    requires
        client.served_nodes_on_loops(),
    ensures
        client.after(transition).served_nodes_on_loops(),
        forall|guild: GuildId| #[trigger]
            client.has_session(guild) && client.node(guild).is_on_loops ==> client.after(
                transition,
            ).node(guild).is_on_loops,
{
}

/// While an entry counts as playing, only a skip, a destroy, a play
/// command that could not be transmitted, or the end of the track as the
/// server reports it, lets the dispatcher go on.
pub proof fn playing_entry_holds_the_dispatcher(
    client: ClientView,
    transition: Transition,
    guild: GuildId,
)
    requires
        client.has_session(guild),
        client.node(guild).now_playing is Some,
        client.after(transition).node(guild).now_playing is None,
    ensures
        match transition {
            Transition::Skip(g) => g == guild,
            Transition::Destroy(g) => g == guild && client.connected,
            Transition::PlayFailed(g) => g == guild,
            Transition::Event(LavalinkEvent::TrackEnd(g, _)) => g == guild,
            Transition::Event(LavalinkEvent::TrackException(g)) => g == guild,
            Transition::Event(LavalinkEvent::TrackStuck(g)) => g == guild,
            _ => false,
        },
{
}

} // verus!
