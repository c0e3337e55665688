//! The main window's bookkeeping around the player's queue: what to ask the
//! player for after the library or a track changes, which track to restore
//! a session at, and when to save the playback position.
use vstd::prelude::*;

use crate::player::index_of;
use crate::player::index_of_id;
use crate::player::PlaybackState;
use crate::player::StateModel;
use crate::rows::id_values;
use crate::track::Track;
use crate::track::TrackId;

verus! {

// ---------------------------------------------------------------------------
// Starting a queue

/// Where a queue of `len` tracks asked to start at `start` begins: nowhere
/// when empty, else `start` held to the last track.
pub open spec fn start_of(len: nat, start: nat) -> Option<nat> {
    if len == 0 {
        None
    } else if start < len {
        Some(start)
    } else {
        Some((len - 1) as nat)
    }
}

/// Where a queue of `len` tracks asked to start at `start` begins.
pub fn enqueue_start(len: usize, start: usize) -> (r: Option<usize>)
    ensures
        match r {
            Some(s) => start_of(len as nat, start as nat) == Some(s as nat),
            None => start_of(len as nat, start as nat) is None,
        },
{
    if len == 0 {
        None
    } else if start < len {
        Some(start)
    } else {
        Some(len - 1)
    }
}

/// The track a restored session starts at: the saved current track when it
/// is among `tracks` (its first position), else the first track.
pub open spec fn restore_index(tracks: Seq<Track>, current: Option<i64>) -> nat {
    match current {
        Some(id) => if index_of_id(tracks, id) >= 0 {
            index_of_id(tracks, id) as nat
        } else {
            0
        },
        None => 0,
    }
}

/// The track a restored session starts at.
pub fn restore_start(tracks: &Vec<Track>, current: Option<i64>) -> (r: usize)
    ensures
        r == restore_index(tracks@, current),
{
    match current {
        Some(id) => match index_of(tracks, TrackId::new(id)) {
            Some(i) => i,
            None => 0,
        },
        None => 0,
    }
}

/// The track to highlight in a queue: the saved current track, when it is
/// among the queue's tracks.
pub fn current_in(tracks: &Vec<Track>, current: Option<i64>) -> (r: Option<TrackId>)
    ensures
        match current {
            Some(id) => if index_of_id(tracks@, id) >= 0 {
                r matches Some(t) && t@ == id
            } else {
                r is None
            },
            None => r is None,
        },
{
    match current {
        Some(id) => match index_of(tracks, TrackId::new(id)) {
            Some(_) => Some(TrackId::new(id)),
            None => None,
        },
        None => None,
    }
}

// ---------------------------------------------------------------------------
// Reconciling the queue with the library

/// Holds of the tracks whose ids are among `ids`.
pub open spec fn among(ids: Seq<i64>) -> spec_fn(Track) -> bool {
    |t: Track| ids.contains(t.id@)
}

/// The tracks of `queue` that still exist in the library, in order.
pub open spec fn surviving(queue: Seq<Track>, library: Seq<i64>) -> Seq<Track> {
    queue.filter(among(library))
}

/// Whether the id `id` is among `ids`.
fn has_id(ids: &[TrackId], id: TrackId) -> (r: bool)
    ensures
        r == id_values(ids@).contains(id@),
{
    let ghost v = id_values(ids@);
    let mut i: usize = 0;
    while i < ids.len()
        invariant
            i <= ids@.len(),
            v == id_values(ids@),
            forall|k: int| 0 <= k < i ==> v[k] != id@,
        decreases ids@.len() - i,
    {
        assert(v[i as int] == ids@[i as int]@);
        if ids[i].value() == id.value() {
            return true;
        }
        i = i + 1;
    }
    false
}

/// The queue to ask the player to adopt after the library changed: the
/// queue's tracks whose ids are still in `library`, or `None` when none
/// were dropped and the queue can stay as it is.
pub fn pruned_queue(queue: &[Track], library: &[TrackId]) -> (r: Option<Vec<Track>>)
    ensures
        surviving(queue@, id_values(library@)).len() == queue@.len() ==> r is None,
        surviving(queue@, id_values(library@)).len() != queue@.len() ==> (r matches Some(v)
            && v@ == surviving(queue@, id_values(library@))),
{
    let ghost pred = among(id_values(library@));
    let mut kept: Vec<Track> = Vec::new();
    let mut i: usize = 0;
    while i < queue.len()
        invariant
            i <= queue@.len(),
            pred == among(id_values(library@)),
            kept@ == queue@.take(i as int).filter(pred),
        decreases queue@.len() - i,
    {
        proof {
            reveal(Seq::filter);
            assert(queue@.take(i + 1).drop_last() =~= queue@.take(i as int));
            assert(queue@.take(i + 1).last() == queue@[i as int]);
        }
        if has_id(library, queue[i].id) {
            kept.push(queue[i].clone());
        }
        i = i + 1;
    }
    assert(queue@.take(queue@.len() as int) =~= queue@);
    if kept.len() != queue.len() {
        Some(kept)
    } else {
        None
    }
}

/// The saved version of `t`: the last of `saved` with its id, or `t`
/// itself when none has.
pub open spec fn saved_version(saved: Seq<Track>, t: Track) -> Track
    decreases saved.len(),
{
    if saved.len() == 0 {
        t
    } else if saved.last().id@ == t.id@ {
        saved.last()
    } else {
        saved_version(saved.drop_last(), t)
    }
}

/// `queue` with every track replaced by its saved version.
pub open spec fn queue_with_saved(queue: Seq<Track>, saved: Seq<Track>) -> Seq<Track> {
    Seq::new(queue.len(), |i: int| saved_version(saved, queue[i]))
}

/// Whether two tracks agree in every field.
pub open spec fn same_fields(a: Track, b: Track) -> bool {
    &&& a.id@ == b.id@
    &&& a.path@ == b.path@
    &&& a.title@ == b.title@
    &&& a.artist@ == b.artist@
    &&& a.album_artist@ == b.album_artist@
    &&& a.album@ == b.album@
    &&& a.genre@ == b.genre@
    &&& a.composer@ == b.composer@
    &&& a.duration@ == b.duration@
    &&& a.track_number@ == b.track_number@
    &&& a.disc_number@ == b.disc_number@
    &&& a.year@ == b.year@
}

/// Whether two tracks agree in every field.
fn same_track(a: &Track, b: &Track) -> (r: bool)
    ensures
        r == same_fields(*a, *b),
{
    a.id.value() == b.id.value() && a.path == b.path && a.title == b.title && a.artist == b.artist
        && a.album_artist == b.album_artist && a.album == b.album && a.genre == b.genre
        && a.composer == b.composer && a.duration.total_millis() == b.duration.total_millis()
        && a.track_number.value() == b.track_number.value() && a.disc_number.value()
        == b.disc_number.value() && a.year.value() == b.year.value()
}

/// The saved version of `t` among `saved`.
fn find_saved(saved: &[Track], t: &Track) -> (r: Track)
    ensures
        r == saved_version(saved@, *t),
{
    let mut i: usize = saved.len();
    assert(saved@.take(saved@.len() as int) =~= saved@);
    while i > 0
        invariant
            i <= saved@.len(),
            saved_version(saved@, *t) == saved_version(saved@.take(i as int), *t),
        decreases i,
    {
        let ghost prefix = saved@.take(i as int);
        assert(prefix.last() == saved@[i - 1]);
        assert(prefix.drop_last() =~= saved@.take(i - 1));
        if saved[i - 1].id.value() == t.id.value() {
            return saved[i - 1].clone();
        }
        i = i - 1;
    }
    assert(saved@.take(0) =~= Seq::<Track>::empty());
    t.clone()
}

/// The queue to ask the player to adopt after tracks were edited and
/// saved: the queue with every edited track replaced by its saved version,
/// or `None` when nothing was saved or no track of the queue changed.
pub fn queue_after_edit(queue: &[Track], saved: &[Track]) -> (r: Option<Vec<Track>>)
    ensures
        saved@.len() == 0 ==> r is None,
        saved@.len() > 0 ==> (r is Some <==> exists|i: int|
            0 <= i < queue@.len() && !same_fields(
                #[trigger] queue_with_saved(queue@, saved@)[i],
                queue@[i],
            )),
        r matches Some(v) ==> v@ == queue_with_saved(queue@, saved@),
{
    if saved.len() == 0 {
        return None;
    }
    let ghost target = queue_with_saved(queue@, saved@);
    let mut updated: Vec<Track> = Vec::new();
    let mut changed = false;
    let mut i: usize = 0;
    while i < queue.len()
        invariant
            i <= queue@.len(),
            target == queue_with_saved(queue@, saved@),
            updated@ == target.take(i as int),
            changed <==> exists|k: int| 0 <= k < i && !same_fields(#[trigger] target[k], queue@[k]),
        decreases queue@.len() - i,
    {
        let t = find_saved(saved, &queue[i]);
        assert(target[i as int] == t);
        let differs = !same_track(&t, &queue[i]);
        if differs {
            changed = true;
        }
        proof {
            if differs {
                assert(!same_fields(target[i as int], queue@[i as int]));
            }
            if changed {
                if !differs {
                    let k = choose|k: int| 0 <= k < i && !same_fields(#[trigger] target[k], queue@[k]);
                    assert(0 <= k < i + 1 && !same_fields(target[k], queue@[k]));
                }
            } else {
                assert forall|k: int| 0 <= k < i + 1 implies same_fields(#[trigger] target[k], queue@[k]) by {
                    if k < i {
                        assert(!(0 <= k < i && !same_fields(target[k], queue@[k])));
                    }
                }
            }
        }
        updated.push(t);
        assert(updated@ =~= target.take(i + 1));
        i = i + 1;
    }
    assert(target.take(queue@.len() as int) =~= target);
    if changed {
        Some(updated)
    } else {
        None
    }
}

// ---------------------------------------------------------------------------
// Saving the playback position

/// Whether a playback state reported while `last_saved` seconds were last
/// saved calls for saving its position: it has one, and its whole second
/// differs. The result is the second and the position in milliseconds
/// (narrowed to 64 bits).
pub open spec fn position_to_save(last_saved: Option<u64>, state: StateModel) -> Option<(u64, u64)> {
    match state {
        StateModel::Playing(_, p) => if last_saved == Some((p / 1000) as u64) {
            None
        } else {
            Some(((p / 1000) as u64, p as u64))
        },
        StateModel::Paused(_, p) => if last_saved == Some((p / 1000) as u64) {
            None
        } else {
            Some(((p / 1000) as u64, p as u64))
        },
        _ => None,
    }
}

/// The playback position to save for `state`, throttled to once per second
/// of playback: `None` when the state has no position or its second was
/// the one last saved.
pub fn position_save(last_saved: Option<u64>, state: &PlaybackState) -> (r: Option<(u64, u64)>)
    ensures
        r == position_to_save(last_saved, state@),
{
    match state.position() {
        Some(p) => {
            let secs = p.as_secs();
            match last_saved {
                Some(s) => if s == secs {
                    return None;
                },
                None => {},
            }
            Some((secs, p.total_millis() as u64))
        },
        None => None,
    }
}

/// A saved version has the id of the track it replaces.
proof fn lemma_saved_version_id(saved: Seq<Track>, t: Track)
    ensures
        saved_version(saved, t).id@ == t.id@,
    decreases saved.len(),
{
    if saved.len() > 0 && saved.last().id@ != t.id@ {
        lemma_saved_version_id(saved.drop_last(), t);
    }
}

/// Replacing a queue's edited tracks by their saved versions keeps every
/// track's id in place, so the player's current track survives the swap
/// and playback of an edited track is never interrupted.
pub proof fn law_edited_queue_keeps_ids(queue: Seq<Track>, saved: Seq<Track>)
    ensures
        queue_with_saved(queue, saved).len() == queue.len(),
        forall|i: int|
            0 <= i < queue.len() ==> (#[trigger] queue_with_saved(queue, saved)[i]).id@
                == queue[i].id@,
{
    assert forall|i: int| 0 <= i < queue.len() implies (#[trigger] queue_with_saved(
        queue,
        saved,
    )[i]).id@ == queue[i].id@ by {
        lemma_saved_version_id(saved, queue[i]);
    }
}

} // verus!
