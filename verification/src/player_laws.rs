//! What holds of every step of the player.
use vstd::prelude::*;

use crate::player::command_step;
use crate::player::index_of_id;
use crate::player::player_step;
use crate::player::stopped;
use crate::player::BackendState;
use crate::player::CommandModel;
use crate::player::EffectModel;
use crate::player::EventModel;
use crate::player::PlayerModel;
use crate::player::StateModel;
use crate::queue::append_model;
use crate::queue::current_of;
use crate::queue::new_model;
use crate::queue::queue_ok;
use crate::queue::QueueModel;
use crate::track::Track;

verus! {

/// A found index of `id` is a real index holding `id`.
pub proof fn lemma_index_of_id_found(ts: Seq<Track>, id: i64)
    ensures
        index_of_id(ts, id) >= 0 ==> index_of_id(ts, id) < ts.len() && ts[index_of_id(
            ts,
            id,
        )].id@ == id,
        index_of_id(ts, id) < 0 ==> forall|k: int| 0 <= k < ts.len() ==> ts[k].id@ != id,
    decreases ts.len(),
{
    if ts.len() > 0 && ts[0].id@ != id {
        lemma_index_of_id_found(ts.drop_first(), id);
        if index_of_id(ts, id) < 0 {
            assert forall|k: int| 0 <= k < ts.len() implies ts[k].id@ != id by {
                if k > 0 {
                    assert(ts[k] == ts.drop_first()[k - 1]);
                }
            }
        } else {
            assert(ts[index_of_id(ts, id)] == ts.drop_first()[index_of_id(ts, id) - 1]);
        }
    }
}

/// Every step keeps the queue well formed.
pub proof fn law_step_keeps_queue_ok(m: PlayerModel, ev: EventModel)
    requires
        queue_ok(m.queue),
    ensures
        queue_ok(player_step(m, ev).0.queue),
{
    match ev {
        EventModel::Command(CommandModel::SetQueue(ts)) => {
            match current_of(m.queue) {
                Some(t) => lemma_index_of_id_found(ts, t.id@),
                None => {},
            }
        },
        _ => {},
    }
}

/// `Stop` always stops the backend, empties the queue, stops the timer, and
/// reports the empty queue and the stopped state, in that order.
pub proof fn law_stop_empties_everything(m: PlayerModel)
    ensures
        player_step(m, EventModel::Command(CommandModel::Stop)) == stopped(),
        stopped().0.queue.tracks.len() == 0,
        !stopped().0.ticking,
        stopped().1 == seq![
            EffectModel::Stop,
            EffectModel::QueueChanged(Seq::empty()),
            EffectModel::StateChanged(StateModel::Stopped),
        ],
{
}

/// Whenever a step reports the queue, it reports the whole queue as it
/// stands after the step.
pub proof fn law_queue_snapshot_is_the_queue(m: PlayerModel, ev: EventModel)
    ensures
        forall|i: int|
            0 <= i < player_step(m, ev).1.len() ==> (#[trigger] player_step(m, ev).1[i] matches EffectModel::QueueChanged(ts)
                ==> ts == player_step(m, ev).0.queue.tracks),
{
}

/// Moving the cursor (`Next`, `Previous`, or a track ending on its own)
/// never reports a queue snapshot: only the list changing does.
pub proof fn law_cursor_moves_report_no_queue(m: PlayerModel, b: BackendState, pos: nat)
    requires
        queue_ok(m.queue),
    ensures
        forall|i: int|
            0 <= i < player_step(m, EventModel::Command(CommandModel::Next)).1.len() ==> !(
            player_step(m, EventModel::Command(CommandModel::Next)).1[i] is QueueChanged),
        forall|i: int|
            0 <= i < player_step(m, EventModel::Command(CommandModel::Previous)).1.len() ==> !(
            player_step(m, EventModel::Command(CommandModel::Previous)).1[i] is QueueChanged),
        m.queue.cursor + 1 < m.queue.tracks.len() ==> forall|i: int|
            0 <= i < player_step(m, EventModel::Tick(b, pos)).1.len() ==> !(player_step(
                m,
                EventModel::Tick(b, pos),
            ).1[i] is QueueChanged),
{
}

/// Replacing the list keeps playing the current track when it survives: it
/// stays current, nothing is stopped, and only the new list is reported.
pub proof fn law_set_queue_keeps_surviving_track(m: PlayerModel, ts: Seq<Track>)
    requires
        queue_ok(m.queue),
        current_of(m.queue) matches Some(t) && exists|k: int|
            0 <= k < ts.len() && ts[k].id@ == t.id@,
    ensures
        ({
            let (after, effects) = player_step(m, EventModel::Command(CommandModel::SetQueue(ts)));
            &&& current_of(after.queue) matches Some(u) && u.id@ == current_of(m.queue)->0.id@
            &&& after.ticking == m.ticking
            &&& effects == seq![EffectModel::QueueChanged(ts)]
        }),
{
    let t = current_of(m.queue)->0;
    lemma_index_of_id_found(ts, t.id@);
}

/// Replacing the list stops playback when the current track is not in it.
pub proof fn law_set_queue_stops_when_current_is_pruned(m: PlayerModel, ts: Seq<Track>)
    requires
        queue_ok(m.queue),
        current_of(m.queue) matches Some(t) && forall|k: int|
            0 <= k < ts.len() ==> ts[k].id@ != t.id@,
    ensures
        player_step(m, EventModel::Command(CommandModel::SetQueue(ts))) == stopped(),
{
    let t = current_of(m.queue)->0;
    lemma_index_of_id_found(ts, t.id@);
}

/// Enqueueing onto a non-empty queue leaves the current track playing: it
/// stays current, and the only effect is the report of the longer list.
pub proof fn law_enqueue_keeps_current_track(m: PlayerModel, ts: Seq<Track>)
    requires
        queue_ok(m.queue),
        m.queue.tracks.len() > 0,
    ensures
        current_of(player_step(m, EventModel::Command(CommandModel::Enqueue(ts))).0.queue)
            == current_of(m.queue),
        player_step(m, EventModel::Command(CommandModel::Enqueue(ts))).1 == seq![
            EffectModel::QueueChanged(m.queue.tracks + ts),
        ],
{
    crate::queue::law_append_keeps_current(m.queue, ts);
}

/// Enqueueing onto an empty queue starts the first enqueued track.
pub proof fn law_enqueue_on_empty_starts_first(m: PlayerModel, ts: Seq<Track>)
    requires
        queue_ok(m.queue),
        m.queue.tracks.len() == 0,
        ts.len() > 0,
    ensures
        player_step(m, EventModel::Command(CommandModel::Enqueue(ts))).1 == seq![
            EffectModel::QueueChanged(ts),
            EffectModel::PlayCurrent(Some(ts[0].path@)),
        ],
{
    assert(m.queue.tracks + ts == ts);
    crate::queue::law_append_keeps_current(m.queue, ts);
}

/// After a play or resume report, the position timer runs exactly when the
/// backend says it is playing; a resume is reported as playing only then.
pub proof fn law_playing_only_when_backend_plays(
    m: PlayerModel,
    outcome: Option<Result<(), Seq<char>>>,
    b: BackendState,
    pos: nat,
)
    ensures
        player_step(m, EventModel::Played(outcome, b)).0.ticking == (b == BackendState::Playing),
        player_step(m, EventModel::Resumed(b, pos)).0.ticking == (b == BackendState::Playing),
        b != BackendState::Playing ==> player_step(m, EventModel::Resumed(b, pos)).1.len() == 0,
{
}

/// A failed start is reported as `Failed` for the current track with the
/// error's message, never as playing.
pub proof fn law_failed_start_reports_failure(
    m: PlayerModel,
    msg: Seq<char>,
    b: BackendState,
)
    requires
        current_of(m.queue) is Some,
    ensures
        player_step(m, EventModel::Played(Some(Err(msg)), b)).1 == seq![
            EffectModel::StateChanged(StateModel::Failed(current_of(m.queue)->0.id@, msg)),
        ],
{
}

/// A seek keeps the playback state the backend reports: with a current
/// track, a seek the backend answers while paused is reported as paused at
/// the sought position, never as playing; one it answers otherwise is
/// reported as playing there. The queue and the timer are left alone.
pub proof fn law_seek_keeps_pause(m: PlayerModel, t: Track, backend: BackendState, pos: nat)
    requires
        current_of(m.queue) == Some(t),
    ensures
        player_step(m, EventModel::Sought(backend, pos)).0 == m,
        backend == BackendState::Paused ==> player_step(m, EventModel::Sought(backend, pos)).1
            == seq![
            EffectModel::StateChanged(StateModel::Paused(t.id@, pos)),
        ],
        backend == BackendState::Paused ==> forall|i: int|
            0 <= i < player_step(m, EventModel::Sought(backend, pos)).1.len() ==> !(#[trigger] player_step(
                m,
                EventModel::Sought(backend, pos),
            ).1[i] matches EffectModel::StateChanged(StateModel::Playing(_, _))),
        backend != BackendState::Paused ==> player_step(m, EventModel::Sought(backend, pos)).1
            == seq![
            EffectModel::StateChanged(StateModel::Playing(t.id@, pos)),
        ],
{
}

} // verus!
