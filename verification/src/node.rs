use vstd::prelude::*;
use crate::model::GuildId;
use crate::model::TrackQueue;
use crate::model::TrackQueueView;

verus! {

/// Playback state of one guild.
#[derive(Debug, PartialEq, Eq)]
pub struct Node {
    /// The guild this state belongs to.
    pub guild: GuildId,
    /// The queue entry that was last handed to the server, until the server
    /// reports that it ended or a caller moves on.
    pub now_playing: Option<TrackQueue>,
    /// The pause flag of the last pause command issued for this guild.
    pub is_paused: bool,
    /// Entries in the order they were queued; the first one is current.
    pub queue: Vec<TrackQueue>,
    /// Whether a dispatcher has been asked for on behalf of this guild.
    pub is_on_loops: bool,
}

/// Mathematical value of a [`Node`].
pub struct NodeView {
    pub guild: GuildId,
    pub now_playing: Option<TrackQueueView>,
    pub is_paused: bool,
    pub queue: Seq<TrackQueueView>,
    pub is_on_loops: bool,
}

impl View for Node {
    type V = NodeView;

    open spec fn view(&self) -> NodeView {
        NodeView {
            guild: self.guild,
            now_playing: match self.now_playing {
                Some(item) => Some(item@),
                None => None,
            },
            is_paused: self.is_paused,
            queue: self.queue@.map_values(|item: TrackQueue| item@),
            is_on_loops: self.is_on_loops,
        }
    }
}

impl Clone for Node {
    fn clone(&self) -> (copy: Self)
        ensures
            copy@ == self@,
    {
        let now_playing = match &self.now_playing {
            Some(item) => Some(item.clone()),
            None => None,
        };
        let mut queue: Vec<TrackQueue> = Vec::new();
        let mut i: usize = 0;
        while i < self.queue.len()
            invariant
                i <= self.queue.len(),
                queue@.len() == i,
                forall|j: int| 0 <= j < i ==> queue@[j]@ == self.queue@[j]@,
            decreases self.queue.len() - i,
        {
            queue.push(self.queue[i].clone());
            i += 1;
        }
        let copy = Node {
            guild: self.guild,
            now_playing,
            is_paused: self.is_paused,
            queue,
            is_on_loops: self.is_on_loops,
        };
        assert(copy@.queue =~= self@.queue);
        copy
    }
}


impl NodeView {
    /// The state a guild starts with: nothing queued, nothing playing, not
    /// paused, no dispatcher.
    pub open spec fn fresh(guild: GuildId) -> NodeView {
        NodeView {
            guild,
            now_playing: None,
            is_paused: false,
            queue: Seq::empty(),
            is_on_loops: false,
        }
    }

    /// The first entry of the queue, if there is one.
    pub open spec fn head(self) -> Option<TrackQueueView> {
        if self.queue.len() > 0 {
            Some(self.queue[0])
        } else {
            None
        }
    }

    /// The queue without its first entry; an empty queue stays empty.
    pub open spec fn tail(self) -> Seq<TrackQueueView> {
        if self.queue.len() > 0 {
            self.queue.remove(0)
        } else {
            self.queue
        }
    }

    /// The state after the item was queued: it stands last, and the guild
    /// counts as served by a dispatcher.
    pub open spec fn enqueued(self, item: TrackQueueView) -> NodeView {
        NodeView { queue: self.queue.push(item), is_on_loops: true, ..self }
    }

    /// The state after a skip: nothing counts as playing and the first entry
    /// is gone.
    pub open spec fn skipped(self) -> NodeView {
        NodeView { now_playing: None, queue: self.tail(), ..self }
    }

    /// Whether the dispatcher has something to do: an entry waits and
    /// nothing counts as playing.
    pub open spec fn due(self) -> bool {
        self.queue.len() > 0 && self.now_playing is None
    }

    /// The state after a dispatcher tick: where an entry was due it now
    /// counts as playing; it stays in the queue.
    pub open spec fn dispatched(self) -> NodeView {
        if self.due() {
            NodeView { now_playing: Some(self.queue[0]), ..self }
        } else {
            self
        }
    }

    /// The state after the server reported that the track ended: nothing
    /// counts as playing, and an entry that played to its end leaves the
    /// queue.
    pub open spec fn ended(self, finished: bool) -> NodeView {
        NodeView {
            now_playing: None,
            queue: if finished {
                self.tail()
            } else {
                self.queue
            },
            ..self
        }
    }

    /// The state after a pause command with this flag was issued.
    pub open spec fn paused(self, pause: bool) -> NodeView {
        NodeView { is_paused: pause, ..self }
    }
}

impl Node {
    /// The state a guild starts with.
    pub fn new(guild: GuildId) -> (node: Self)
        ensures
            node@ == NodeView::fresh(guild),
    {
        let node = Node {
            guild,
            now_playing: None,
            is_paused: false,
            queue: Vec::new(),
            is_on_loops: false,
        };
        assert(node@.queue =~= Seq::empty());
        node
    }

    /// Appends the item to the queue. The result says whether a dispatcher
    /// has to be started: it does when none was asked for before.
    pub fn enqueue(&mut self, item: TrackQueue) -> (start_dispatcher: bool)
        ensures
            final(self)@ == old(self)@.enqueued(item@),
            start_dispatcher == !old(self).is_on_loops,
    {
        let start_dispatcher = !self.is_on_loops;
        self.is_on_loops = true;
        self.queue.push(item);
        assert(self@.queue =~= old(self)@.queue.push(item@));
        start_dispatcher
    }

    fn drop_head(&mut self) -> (head: Option<TrackQueue>)
        ensures
            final(self)@ == (NodeView { queue: old(self)@.tail(), ..old(self)@ }),
            match head {
                Some(item) => Some(item@),
                None => None,
            } == old(self)@.head(),
    {
        if self.queue.is_empty() {
            None
        } else {
            let item = self.queue.remove(0);
            assert(self@.queue =~= old(self)@.queue.remove(0));
            Some(item)
        }
    }

    /// Moves on to the next entry: nothing counts as playing any more, and
    /// the first entry leaves the queue and is returned.
    pub fn skip(&mut self) -> (skipped: Option<TrackQueue>)
        ensures
            final(self)@ == old(self)@.skipped(),
            match skipped {
                Some(item) => Some(item@),
                None => None,
            } == old(self)@.head(),
    {
        self.now_playing = None;
        self.drop_head()
    }

    /// Whether the dispatcher has something to do: an entry waits and
    /// nothing counts as playing.
    pub fn is_due(&self) -> (due: bool)
        ensures
            due == self@.due(),
    {
        !self.queue.is_empty() && self.now_playing.is_none()
    }

    /// One step of the dispatcher: where an entry waits and nothing counts
    /// as playing, the first entry becomes the playing one and a copy of it
    /// is returned. It is not removed.
    pub fn advance(&mut self) -> (next: Option<TrackQueue>)
        ensures
            final(self)@ == old(self)@.dispatched(),
            next is Some <==> old(self)@.due(),
            next matches Some(item) ==> item@ == old(self)@.queue[0],
    {
        if !self.queue.is_empty() && self.now_playing.is_none() {
            let item = self.queue[0].clone();
            self.now_playing = Some(self.queue[0].clone());
            Some(item)
        } else {
            None
        }
    }

    /// Takes note that the server reported the end of the track.
    pub fn track_ended(&mut self, finished: bool)
        ensures
            final(self)@ == old(self)@.ended(finished),
    {
        self.now_playing = None;
        if finished {
            let _ = self.drop_head();
        }
    }

    /// Takes note of the pause flag of a pause command.
    pub fn set_paused(&mut self, pause: bool)
        ensures
            final(self)@ == old(self)@.paused(pause),
    {
        self.is_paused = pause;
    }
}

} // verus!
