//! The play queue: an ordered list of tracks with a cursor on the one
//! selected for playback.
use vstd::prelude::*;

use crate::track::Track;

verus! {

/// The abstract state of a queue: its tracks in order, and the cursor.
pub struct QueueModel {
    pub tracks: Seq<Track>,
    pub cursor: nat,
}

/// What every queue satisfies: an empty queue has its cursor at 0, any other
/// queue has its cursor on a real track.
pub open spec fn queue_ok(q: QueueModel) -> bool {
    if q.tracks.len() == 0 {
        q.cursor == 0
    } else {
        q.cursor < q.tracks.len()
    }
}

/// The track under the cursor, if the queue holds any.
pub open spec fn current_of(q: QueueModel) -> Option<Track> {
    if q.cursor < q.tracks.len() {
        Some(q.tracks[q.cursor as int])
    } else {
        None
    }
}

/// The model of `Queue::new(tracks, start)`: the cursor clamped to the last
/// track.
pub open spec fn new_model(tracks: Seq<Track>, start: nat) -> QueueModel {
    QueueModel {
        tracks,
        cursor: if tracks.len() == 0 {
            0
        } else if start < tracks.len() {
            start
        } else {
            (tracks.len() - 1) as nat
        },
    }
}

/// The queue after a move to the next track: the cursor steps forward unless
/// it is already on the last track.
pub open spec fn advance_model(q: QueueModel) -> QueueModel {
    if q.cursor + 1 < q.tracks.len() {
        QueueModel { tracks: q.tracks, cursor: q.cursor + 1 }
    } else {
        q
    }
}

/// The queue after a move to the previous track: the cursor steps back unless
/// it is already on the first track.
pub open spec fn rewind_model(q: QueueModel) -> QueueModel {
    if q.cursor > 0 {
        QueueModel { tracks: q.tracks, cursor: (q.cursor - 1) as nat }
    } else {
        q
    }
}

/// The queue after `tracks` are appended: the cursor stays where it was.
pub open spec fn append_model(q: QueueModel, tracks: Seq<Track>) -> QueueModel {
    QueueModel { tracks: q.tracks + tracks, cursor: q.cursor }
}

/// An ordered list of tracks with a cursor on the one currently selected for
/// playback. A queue is empty when there is nothing to play; otherwise the
/// cursor always points at a real track (`cursor < tracks.len()`).
#[derive(Debug, PartialEq, Eq)]
pub struct Queue {
    tracks: Vec<Track>,
    cursor: usize,
}

impl View for Queue {
    type V = QueueModel;

    closed spec fn view(&self) -> QueueModel {
        QueueModel { tracks: self.tracks@, cursor: self.cursor as nat }
    }
}

impl Clone for Queue {
    fn clone(&self) -> (r: Self)
        ensures
            r@ == self@,
    {
        proof {
            use_type_invariant(self);
        }
        Queue { tracks: crate::track::clone_tracks(self.tracks.as_slice()), cursor: self.cursor }
    }
}

impl Default for Queue {
    fn default() -> (r: Self)
        ensures
            r@ == (QueueModel { tracks: Seq::empty(), cursor: 0 }),
    {
        Queue::empty()
    }
}

impl Queue {
    /// Every queue satisfies `queue_ok`.
    #[verifier::type_invariant]
    pub closed spec fn well_formed(self) -> bool {
        queue_ok(self@)
    }

    pub proof fn lemma_well_formed(self)
        requires
            self.well_formed(),
        ensures
            queue_ok(self@),
    {
    }

    /// An empty queue with nothing to play.
    pub fn empty() -> (r: Self)
        ensures
            r@ == (QueueModel { tracks: Seq::empty(), cursor: 0 }),
    {
        Queue { tracks: Vec::new(), cursor: 0 }
    }

    /// A queue over `tracks` positioned at `start`. `start` is clamped to the
    /// last track so the cursor never points past the end; an empty `tracks`
    /// yields an empty queue.
    pub fn new(tracks: Vec<Track>, start: usize) -> (r: Self)
        ensures
            r@ == new_model(tracks@, start as nat),
    {
        let last = if tracks.len() == 0 {
            0
        } else {
            tracks.len() - 1
        };
        let cursor = if start < last {
            start
        } else {
            last
        };
        Queue { tracks, cursor }
    }

    /// A queue holding a single track.
    pub fn single(track: Track) -> (r: Self)
        ensures
            r@ == (QueueModel { tracks: seq![track], cursor: 0 }),
    {
        let mut tracks: Vec<Track> = Vec::new();
        tracks.push(track);
        proof {
            assert(tracks@ == seq![track]);
        }
        Queue { tracks, cursor: 0 }
    }

    /// The track under the cursor, or `None` when the queue is empty.
    pub fn current(&self) -> (r: Option<&Track>)
        ensures
            match current_of(self@) {
                Some(t) => r matches Some(x) && *x == t,
                None => r is None,
            },
            self@.tracks.len() > 0 <==> r is Some,
    {
        proof {
            use_type_invariant(self);
        }
        if self.cursor < self.tracks.len() {
            Some(&self.tracks[self.cursor])
        } else {
            None
        }
    }

    /// Moves the cursor to the next track and returns it, or `None` when already
    /// at the last track (the cursor does not move past the end).
    pub fn advance(&mut self) -> (r: Option<Track>)
        ensures
            final(self)@ == advance_model(old(self)@),
            r == (if old(self)@.cursor + 1 < old(self)@.tracks.len() {
                current_of(final(self)@)
            } else {
                None
            }),
    {
        proof {
            use_type_invariant(&*self);
        }
        if self.tracks.len() > 0 && self.cursor < self.tracks.len() - 1 {
            self.cursor = self.cursor + 1;
            Some(self.tracks[self.cursor].clone())
        } else {
            None
        }
    }

    /// Moves the cursor to the previous track and returns it, or `None` when
    /// already at the first track (the cursor does not move before the start).
    pub fn rewind(&mut self) -> (r: Option<Track>)
        ensures
            final(self)@ == rewind_model(old(self)@),
            r == (if old(self)@.cursor > 0 {
                current_of(final(self)@)
            } else {
                None
            }),
    {
        proof {
            use_type_invariant(&*self);
        }
        if self.cursor == 0 {
            return None;
        }
        self.cursor = self.cursor - 1;
        Some(self.tracks[self.cursor].clone())
    }

    /// The number of tracks in the queue.
    pub fn len(&self) -> (r: usize)
        ensures
            r == self@.tracks.len(),
    {
        self.tracks.len()
    }

    /// True when the queue holds no tracks.
    pub fn is_empty(&self) -> (r: bool)
        ensures
            r == (self@.tracks.len() == 0),
    {
        self.tracks.len() == 0
    }

    /// The cursor's zero-based position.
    pub fn position(&self) -> (r: usize)
        ensures
            r == self@.cursor,
    {
        self.cursor
    }

    /// The full track list, in order.
    pub fn tracks(&self) -> (r: &[Track])
        ensures
            r@ == self@.tracks,
    {
        self.tracks.as_slice()
    }

    /// Appends `tracks` to the end of the queue. The cursor (and hence the
    /// currently playing track) is untouched; on a previously empty queue it
    /// stays at 0, pointing at the first appended track.
    pub fn append(&mut self, tracks: Vec<Track>)
        ensures
            final(self)@ == append_model(old(self)@, tracks@),
    {
        proof {
            use_type_invariant(&*self);
        }
        let mut whole = Queue::empty();
        core::mem::swap(self, &mut whole);
        let Queue { tracks: mut all, cursor } = whole;
        let mut tracks = tracks;
        all.append(&mut tracks);
        *self = Queue { tracks: all, cursor };
    }
}

/// Every operation keeps a queue well formed.
pub proof fn law_operations_keep_queue_ok(q: QueueModel, tracks: Seq<Track>, start: nat)
    requires
        queue_ok(q),
    ensures
        queue_ok(advance_model(q)),
        queue_ok(rewind_model(q)),
        queue_ok(append_model(q, tracks)),
        queue_ok(new_model(tracks, start)),
{
}

/// Moving forward and then back returns to the same track, and so does
/// moving back and then forward.
pub proof fn law_advance_rewind_inverse(q: QueueModel)
    requires
        queue_ok(q),
    ensures
        q.cursor + 1 < q.tracks.len() ==> rewind_model(advance_model(q)) == q,
        q.cursor > 0 ==> advance_model(rewind_model(q)) == q,
{
}

/// Appending never disturbs the current track; appending to an empty queue
/// makes the first appended track current.
pub proof fn law_append_keeps_current(q: QueueModel, tracks: Seq<Track>)
    requires
        queue_ok(q),
    ensures
        q.tracks.len() > 0 ==> current_of(append_model(q, tracks)) == current_of(q),
        q.tracks.len() == 0 && tracks.len() > 0 ==> current_of(append_model(q, tracks)) == Some(
            tracks[0],
        ),
{
    if q.tracks.len() > 0 {
        assert((q.tracks + tracks)[q.cursor as int] == q.tracks[q.cursor as int]);
    } else {
        assert((q.tracks + tracks)[0] == tracks[0]);
    }
}

} // verus!
