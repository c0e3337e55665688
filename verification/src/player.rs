//! The player's decisions: what each command, timer tick and backend report
//! does to the queue, what the audio backend is told next, and which states
//! and queue snapshots are reported. The thread that owns the audio backend
//! runs the loop: it performs each effect and feeds the outcome back.
use vstd::prelude::*;

use crate::queue::advance_model;
use crate::queue::append_model;
use crate::queue::current_of;
use crate::queue::new_model;
use crate::queue::queue_ok;
use crate::queue::rewind_model;
use crate::queue::Queue;
use crate::queue::QueueModel;
use crate::text::push_str;
use crate::track::Track;
use crate::track::TrackId;
use crate::track::TrackPath;
use crate::track::duration_new;
use crate::track::std_duration;

verus! {

broadcast use vstd::string::group_string_axioms;

/// Playback position within a track, kept to the millisecond. Always
/// non-negative.
#[derive(Debug, Clone, Copy, PartialEq, Eq, Structural, PartialOrd, Ord)]
pub struct SeekPosition {
    secs: u64,
    millis: u32,
}

impl View for SeekPosition {
    type V = nat;

    /// The position in milliseconds.
    closed spec fn view(&self) -> nat {
        self.secs as nat * 1000 + self.millis as nat
    }
}

impl Default for SeekPosition {
    /// The start of the track: the zero position.
    fn default() -> (r: Self)
        ensures
            r@ == 0,
            r == SeekPosition::at_millis(0),
    {
        SeekPosition { secs: 0, millis: 0 }
    }
}

impl SeekPosition {
    #[verifier::type_invariant]
    spec fn inv(self) -> bool {
        self.millis < 1000
    }

    /// The position `ms` milliseconds into a track (for `ms` that fits).
    pub closed spec fn at_millis(ms: nat) -> SeekPosition {
        SeekPosition { secs: (ms / 1000) as u64, millis: (ms % 1000) as u32 }
    }

    pub fn from_secs(secs: u64) -> (r: Self)
        ensures
            r@ == secs as nat * 1000,
            r == SeekPosition::at_millis(secs as nat * 1000),
    {
        SeekPosition { secs, millis: 0 }
    }

    pub fn from_millis(millis: u64) -> (r: Self)
        ensures
            r@ == millis as nat,
            r == SeekPosition::at_millis(millis as nat),
    {
        SeekPosition { secs: millis / 1000, millis: (millis % 1000) as u32 }
    }

    /// The same position as a `core::time::Duration`: its whole seconds,
    /// and its remaining milliseconds as nanoseconds.
    pub fn as_duration(self) -> (r: core::time::Duration)
        ensures
            r == duration_new((self@ / 1000) as u64, ((self@ % 1000) * 1_000_000) as u32),
            forall|s: u64, n: u32|
                n < 1_000_000_000 && #[trigger] duration_new(s, n) == r ==> s == self@ / 1000 && n
                    == (self@ % 1000) * 1_000_000,
    {
        proof {
            use_type_invariant(self);
        }
        std_duration(self.secs, self.millis * 1_000_000)
    }

    /// Whole seconds, rounded down.
    pub fn as_secs(self) -> (r: u64)
        ensures
            r as nat == self@ / 1000,
    {
        proof {
            use_type_invariant(self);
        }
        self.secs
    }

    /// Whole milliseconds, exactly.
    pub fn total_millis(self) -> (r: u128)
        ensures
            r == self@,
    {
        proof {
            use_type_invariant(self);
        }
        self.secs as u128 * 1000 + self.millis as u128
    }

    /// Whole milliseconds, saturating at `u64::MAX`.
    pub fn as_millis(self) -> (r: u64)
        ensures
            r as nat == if self@ <= u64::MAX { self@ } else { u64::MAX as nat },
    {
        proof {
            use_type_invariant(self);
        }
        if self.secs > (u64::MAX - 999) / 1000 {
            if self.secs as u128 * 1000 + self.millis as u128 > u64::MAX as u128 {
                return u64::MAX;
            }
        }
        self.secs * 1000 + self.millis as u64
    }

    /// The start of the track: the same position as `from_secs(0)` and
    /// `default()`, at or before every position.
    pub fn zero() -> (r: Self)
        ensures
            r@ == 0,
            r == SeekPosition::at_millis(0),
            forall|p: SeekPosition| r@ <= #[trigger] p@,
    {
        SeekPosition { secs: 0, millis: 0 }
    }
}

/// The mathematical form of a `PlaybackState`: track ids, positions in
/// milliseconds, error text as characters.
pub enum StateModel {
    Stopped,
    Playing(i64, nat),
    Paused(i64, nat),
    Failed(i64, Seq<char>),
}

/// Current state of the audio engine.
#[derive(Debug, Clone, PartialEq)]
pub enum PlaybackState {
    Stopped,
    Playing { track: TrackId, position: SeekPosition },
    Paused { track: TrackId, position: SeekPosition },
    /// The backend failed to open or decode the track (e.g. missing file, corrupt data).
    Failed { track: TrackId, error: String },
}

impl View for PlaybackState {
    type V = StateModel;

    open spec fn view(&self) -> StateModel {
        match self {
            PlaybackState::Stopped => StateModel::Stopped,
            PlaybackState::Playing { track, position } => StateModel::Playing(track@, position@),
            PlaybackState::Paused { track, position } => StateModel::Paused(track@, position@),
            PlaybackState::Failed { track, error } => StateModel::Failed(track@, error@),
        }
    }
}

impl PlaybackState {
    pub fn is_stopped(&self) -> (r: bool)
        ensures
            r == (self@ is Stopped),
    {
        match self {
            PlaybackState::Stopped => true,
            _ => false,
        }
    }

    pub fn is_playing(&self) -> (r: bool)
        ensures
            r == (self@ is Playing),
    {
        match self {
            PlaybackState::Playing { .. } => true,
            _ => false,
        }
    }

    /// The track the state is about, or `None` when stopped.
    pub fn current_track(&self) -> (r: Option<TrackId>)
        ensures
            match self@ {
                StateModel::Stopped => r is None,
                StateModel::Playing(id, _) => r matches Some(t) && t@ == id,
                StateModel::Paused(id, _) => r matches Some(t) && t@ == id,
                StateModel::Failed(id, _) => r matches Some(t) && t@ == id,
            },
    {
        match self {
            PlaybackState::Stopped => None,
            PlaybackState::Playing { track, .. } => Some(*track),
            PlaybackState::Paused { track, .. } => Some(*track),
            PlaybackState::Failed { track, .. } => Some(*track),
        }
    }

    /// The playback position, or `None` when stopped or failed.
    pub fn position(&self) -> (r: Option<SeekPosition>)
        ensures
            match self@ {
                StateModel::Playing(_, p) => r matches Some(x) && x@ == p,
                StateModel::Paused(_, p) => r matches Some(x) && x@ == p,
                _ => r is None,
            },
    {
        match self {
            PlaybackState::Stopped => None,
            PlaybackState::Playing { position, .. } => Some(*position),
            PlaybackState::Paused { position, .. } => Some(*position),
            PlaybackState::Failed { .. } => None,
        }
    }
}

/// Why the audio backend could not do what it was asked.
#[derive(Debug, Clone, PartialEq)]
pub enum AudioError {
    Device(String),
    Decode(String, String),
}

impl View for AudioError {
    type V = Seq<char>;

    /// The error's message.
    open spec fn view(&self) -> Seq<char> {
        match self {
            AudioError::Device(d) => "failed to open audio output: "@ + d@,
            AudioError::Decode(what, why) => "failed to decode "@ + what@ + ": "@ + why@,
        }
    }
}

impl AudioError {
    /// The error's message: "failed to open audio output: …" or
    /// "failed to decode …: …".
    pub fn message(&self) -> (r: String)
        ensures
            r@ == self@,
    {
        let mut r = String::new();
        match self {
            AudioError::Device(d) => {
                push_str(&mut r, "failed to open audio output: ");
                push_str(&mut r, d.as_str());
            },
            AudioError::Decode(what, why) => {
                push_str(&mut r, "failed to decode ");
                push_str(&mut r, what.as_str());
                push_str(&mut r, ": ");
                push_str(&mut r, why.as_str());
            },
        }
        r
    }
}

/// What the audio hardware is doing right now.
#[derive(Debug, Clone, Copy, PartialEq, Eq, Structural)]
pub enum BackendState {
    Playing,
    Paused,
    /// No source loaded, or the loaded source finished on its own. Also the
    /// state of a backend on which `resume()` was called with nothing to
    /// resume — checked before reporting `Playing`, so a resume after a
    /// decode failure never claims audio that isn't there.
    Idle,
}

/// Commands sent to the player.
#[derive(Debug, Clone, PartialEq)]
pub enum PlayerCommand {
    Play(Box<Track>),
    /// Replaces the queue with `tracks` positioned at `start` and plays it.
    PlayQueue { tracks: Vec<Track>, start: usize },
    /// Appends `tracks` to the end of the current queue without disturbing
    /// what's already playing. If the queue was empty, playback starts from
    /// the first appended track.
    Enqueue(Vec<Track>),
    /// Restores `tracks` at `start`, loaded paused at `position`.
    RestorePaused { tracks: Vec<Track>, start: usize, position: SeekPosition },
    /// Replaces the queue's track list without disturbing playback: if the
    /// current track is present in `tracks`, its position resumes unchanged;
    /// otherwise playback stops.
    SetQueue(Vec<Track>),
    Pause,
    Resume,
    Stop,
    Seek(SeekPosition),
    Next,
    Previous,
}

/// The mathematical form of a `PlayerCommand`.
pub enum CommandModel {
    Play(Track),
    PlayQueue(Seq<Track>, nat),
    Enqueue(Seq<Track>),
    RestorePaused(Seq<Track>, nat, nat),
    SetQueue(Seq<Track>),
    Pause,
    Resume,
    Stop,
    Seek(nat),
    Next,
    Previous,
}

impl View for PlayerCommand {
    type V = CommandModel;

    open spec fn view(&self) -> CommandModel {
        match self {
            PlayerCommand::Play(t) => CommandModel::Play(**t),
            PlayerCommand::PlayQueue { tracks, start } => CommandModel::PlayQueue(
                tracks@,
                *start as nat,
            ),
            PlayerCommand::Enqueue(tracks) => CommandModel::Enqueue(tracks@),
            PlayerCommand::RestorePaused { tracks, start, position } => CommandModel::RestorePaused(
                tracks@,
                *start as nat,
                position@,
            ),
            PlayerCommand::SetQueue(tracks) => CommandModel::SetQueue(tracks@),
            PlayerCommand::Pause => CommandModel::Pause,
            PlayerCommand::Resume => CommandModel::Resume,
            PlayerCommand::Stop => CommandModel::Stop,
            PlayerCommand::Seek(p) => CommandModel::Seek(p@),
            PlayerCommand::Next => CommandModel::Next,
            PlayerCommand::Previous => CommandModel::Previous,
        }
    }
}

/// Something that happened, for the player to react to: a command, a timer
/// tick while playing (with what the backend reports), or the report that
/// follows an effect that needs one.
#[derive(Debug)]
pub enum PlayerEvent {
    Command(PlayerCommand),
    /// The position timer fired: the backend's state and position.
    Tick(BackendState, SeekPosition),
    /// Follows `PlayCurrent`: the outcome of starting the track (`None` when
    /// there was none to start) and the backend's state afterwards.
    Played(Option<Result<(), AudioError>>, BackendState),
    /// Follows `PlayPaused`: the outcome, and the position it was loaded at.
    Restored(Result<(), AudioError>, SeekPosition),
    /// Follows `Pause`: the backend's position.
    Paused(SeekPosition),
    /// Follows `Resume`: the backend's state and position.
    Resumed(BackendState, SeekPosition),
    /// Follows `Seek`: the backend's state, and the position sought to.
    Sought(BackendState, SeekPosition),
}

/// The mathematical form of a `PlayerEvent`; errors as their messages.
pub enum EventModel {
    Command(CommandModel),
    Tick(BackendState, nat),
    Played(Option<Result<(), Seq<char>>>, BackendState),
    Restored(Result<(), Seq<char>>, nat),
    Paused(nat),
    Resumed(BackendState, nat),
    Sought(BackendState, nat),
}

pub open spec fn outcome_view(r: Result<(), AudioError>) -> Result<(), Seq<char>> {
    match r {
        Ok(()) => Ok(()),
        Err(e) => Err(e@),
    }
}

impl View for PlayerEvent {
    type V = EventModel;

    open spec fn view(&self) -> EventModel {
        match self {
            PlayerEvent::Command(c) => EventModel::Command(c@),
            PlayerEvent::Tick(b, p) => EventModel::Tick(*b, p@),
            PlayerEvent::Played(o, b) => EventModel::Played(
                match o {
                    Some(r) => Some(outcome_view(*r)),
                    None => None,
                },
                *b,
            ),
            PlayerEvent::Restored(r, p) => EventModel::Restored(outcome_view(*r), p@),
            PlayerEvent::Paused(p) => EventModel::Paused(p@),
            PlayerEvent::Resumed(b, p) => EventModel::Resumed(*b, p@),
            PlayerEvent::Sought(b, p) => EventModel::Sought(*b, p@),
        }
    }
}

/// What the loop that owns the backend is to do next. `PlayCurrent`,
/// `PlayPaused`, `Pause`, `Resume` and `Seek` come last in a batch, and the
/// loop answers each with the event of the same name (`Played`,
/// `Restored`, `Paused`, `Resumed`, `Sought`).
#[derive(Debug, Clone, PartialEq)]
pub enum PlayerEffect {
    /// Start the given track, if any, then report `Played`.
    PlayCurrent(Option<TrackPath>),
    /// Load the track paused at the position, then report `Restored`.
    PlayPaused(TrackPath, SeekPosition),
    Stop,
    Pause,
    Resume,
    Seek(SeekPosition),
    /// The queue's track list changed: here is the whole list.
    QueueChanged(Vec<Track>),
    /// The playback state changed.
    StateChanged(PlaybackState),
}

/// The mathematical form of a `PlayerEffect`.
pub enum EffectModel {
    PlayCurrent(Option<Seq<char>>),
    PlayPaused(Seq<char>, nat),
    Stop,
    Pause,
    Resume,
    Seek(nat),
    QueueChanged(Seq<Track>),
    StateChanged(StateModel),
}

impl View for PlayerEffect {
    type V = EffectModel;

    open spec fn view(&self) -> EffectModel {
        match self {
            PlayerEffect::PlayCurrent(p) => EffectModel::PlayCurrent(
                match p {
                    Some(x) => Some(x@),
                    None => None,
                },
            ),
            PlayerEffect::PlayPaused(p, pos) => EffectModel::PlayPaused(p@, pos@),
            PlayerEffect::Stop => EffectModel::Stop,
            PlayerEffect::Pause => EffectModel::Pause,
            PlayerEffect::Resume => EffectModel::Resume,
            PlayerEffect::Seek(p) => EffectModel::Seek(p@),
            PlayerEffect::QueueChanged(ts) => EffectModel::QueueChanged(ts@),
            PlayerEffect::StateChanged(s) => EffectModel::StateChanged(s@),
        }
    }
}

pub open spec fn effects_view(s: Seq<PlayerEffect>) -> Seq<EffectModel> {
    s.map_values(|e: PlayerEffect| e@)
}

/// The player's state: its queue, and whether the position timer runs
/// (while a track is playing).
pub struct PlayerModel {
    pub queue: QueueModel,
    pub ticking: bool,
}

/// The path of the current track, if any.
pub open spec fn current_path(q: QueueModel) -> Option<Seq<char>> {
    match current_of(q) {
        Some(t) => Some(t.path@),
        None => None,
    }
}

/// The index of the first track of `ts` with id `id`, or `-1`.
pub open spec fn index_of_id(ts: Seq<Track>, id: i64) -> int
    decreases ts.len(),
{
    if ts.len() == 0 {
        -1
    } else if ts[0].id@ == id {
        0
    } else {
        let r = index_of_id(ts.drop_first(), id);
        if r < 0 {
            -1
        } else {
            r + 1
        }
    }
}

/// Stopping: the backend stops, the queue empties, and both are reported.
pub open spec fn stopped() -> (PlayerModel, Seq<EffectModel>) {
    (
        PlayerModel { queue: QueueModel { tracks: Seq::empty(), cursor: 0 }, ticking: false },
        seq![
            EffectModel::Stop,
            EffectModel::QueueChanged(Seq::empty()),
            EffectModel::StateChanged(StateModel::Stopped),
        ],
    )
}

/// What a command does.
pub open spec fn command_step(m: PlayerModel, c: CommandModel) -> (PlayerModel, Seq<EffectModel>) {
    let q = m.queue;
    match c {
        CommandModel::Play(t) => {
            let q2 = QueueModel { tracks: seq![t], cursor: 0 };
            (
                PlayerModel { queue: q2, ticking: m.ticking },
                seq![EffectModel::QueueChanged(seq![t]), EffectModel::PlayCurrent(Some(t.path@))],
            )
        },
        CommandModel::PlayQueue(ts, start) => {
            let q2 = new_model(ts, start);
            (
                PlayerModel { queue: q2, ticking: m.ticking },
                seq![EffectModel::QueueChanged(ts), EffectModel::PlayCurrent(current_path(q2))],
            )
        },
        CommandModel::Enqueue(ts) => {
            let q2 = append_model(q, ts);
            if q.tracks.len() == 0 {
                (
                    PlayerModel { queue: q2, ticking: m.ticking },
                    seq![
                        EffectModel::QueueChanged(q2.tracks),
                        EffectModel::PlayCurrent(current_path(q2)),
                    ],
                )
            } else {
                (
                    PlayerModel { queue: q2, ticking: m.ticking },
                    seq![EffectModel::QueueChanged(q2.tracks)],
                )
            }
        },
        CommandModel::RestorePaused(ts, start, pos) => {
            let q2 = new_model(ts, start);
            let after = PlayerModel { queue: q2, ticking: false };
            match current_of(q2) {
                Some(t) => (
                    after,
                    seq![EffectModel::QueueChanged(ts), EffectModel::PlayPaused(t.path@, pos)],
                ),
                None => (after, seq![EffectModel::QueueChanged(ts)]),
            }
        },
        CommandModel::SetQueue(ts) => match current_of(q) {
            Some(t) => if index_of_id(ts, t.id@) >= 0 {
                (
                    PlayerModel {
                        queue: new_model(ts, index_of_id(ts, t.id@) as nat),
                        ticking: m.ticking,
                    },
                    seq![EffectModel::QueueChanged(ts)],
                )
            } else {
                stopped()
            },
            None => (
                PlayerModel { queue: new_model(ts, 0), ticking: m.ticking },
                seq![EffectModel::QueueChanged(ts)],
            ),
        },
        CommandModel::Pause => (PlayerModel { queue: q, ticking: false }, seq![EffectModel::Pause]),
        CommandModel::Resume => (m, seq![EffectModel::Resume]),
        CommandModel::Stop => stopped(),
        CommandModel::Seek(pos) => (m, seq![EffectModel::Seek(pos)]),
        CommandModel::Next => if q.cursor + 1 < q.tracks.len() {
            let q2 = advance_model(q);
            (
                PlayerModel { queue: q2, ticking: m.ticking },
                seq![EffectModel::PlayCurrent(current_path(q2))],
            )
        } else {
            (m, Seq::empty())
        },
        CommandModel::Previous => if q.cursor > 0 {
            let q2 = rewind_model(q);
            (
                PlayerModel { queue: q2, ticking: m.ticking },
                seq![EffectModel::PlayCurrent(current_path(q2))],
            )
        } else {
            (m, Seq::empty())
        },
    }
}

/// What the player does on `ev`: its next state and the effects to perform,
/// in order.
pub open spec fn player_step(m: PlayerModel, ev: EventModel) -> (PlayerModel, Seq<EffectModel>) {
    let q = m.queue;
    match ev {
        EventModel::Command(c) => command_step(m, c),
        EventModel::Tick(b, pos) => match current_of(q) {
            None => (PlayerModel { queue: q, ticking: false }, Seq::empty()),
            Some(t) => match b {
                BackendState::Playing => (
                    m,
                    seq![EffectModel::StateChanged(StateModel::Playing(t.id@, pos))],
                ),
                BackendState::Paused => (m, Seq::empty()),
                BackendState::Idle => if q.cursor + 1 < q.tracks.len() {
                    let q2 = advance_model(q);
                    (
                        PlayerModel { queue: q2, ticking: m.ticking },
                        seq![EffectModel::PlayCurrent(current_path(q2))],
                    )
                } else {
                    stopped()
                },
            },
        },
        EventModel::Played(outcome, b) => {
            let after = PlayerModel { queue: q, ticking: b == BackendState::Playing };
            match current_of(q) {
                Some(t) => match outcome {
                    Some(Ok(())) => (
                        after,
                        seq![EffectModel::StateChanged(StateModel::Playing(t.id@, 0))],
                    ),
                    Some(Err(msg)) => (
                        after,
                        seq![EffectModel::StateChanged(StateModel::Failed(t.id@, msg))],
                    ),
                    None => (after, Seq::empty()),
                },
                None => (after, Seq::empty()),
            }
        },
        EventModel::Restored(outcome, pos) => {
            let after = PlayerModel { queue: q, ticking: false };
            match current_of(q) {
                Some(t) => match outcome {
                    Ok(()) => (
                        after,
                        seq![EffectModel::StateChanged(StateModel::Paused(t.id@, pos))],
                    ),
                    Err(msg) => (
                        after,
                        seq![EffectModel::StateChanged(StateModel::Failed(t.id@, msg))],
                    ),
                },
                None => (after, Seq::empty()),
            }
        },
        EventModel::Paused(pos) => match current_of(q) {
            Some(t) => (m, seq![EffectModel::StateChanged(StateModel::Paused(t.id@, pos))]),
            None => (m, Seq::empty()),
        },
        EventModel::Resumed(b, pos) => {
            let after = PlayerModel { queue: q, ticking: b == BackendState::Playing };
            match current_of(q) {
                Some(t) => if b == BackendState::Playing {
                    (after, seq![EffectModel::StateChanged(StateModel::Playing(t.id@, pos))])
                } else {
                    (after, Seq::empty())
                },
                None => (after, Seq::empty()),
            }
        },
        EventModel::Sought(b, pos) => match current_of(q) {
            Some(t) => if b == BackendState::Paused {
                (m, seq![EffectModel::StateChanged(StateModel::Paused(t.id@, pos))])
            } else {
                (m, seq![EffectModel::StateChanged(StateModel::Playing(t.id@, pos))])
            },
            None => (m, Seq::empty()),
        },
    }
}

/// The player: its queue and whether the position timer runs.
pub struct Player {
    queue: Queue,
    ticking: bool,
}

impl View for Player {
    type V = PlayerModel;

    closed spec fn view(&self) -> PlayerModel {
        PlayerModel { queue: self.queue@, ticking: self.ticking }
    }
}

pub(crate) fn index_of(tracks: &Vec<Track>, id: TrackId) -> (r: Option<usize>)
    ensures
        match r {
            Some(i) => i as int == index_of_id(tracks@, id@),
            None => index_of_id(tracks@, id@) < 0,
        },
        -1 <= index_of_id(tracks@, id@) < tracks@.len(),
{
    let mut i: usize = 0;
    proof {
        lemma_index_of_id(tracks@, id@, 0);
    }
    while i < tracks.len()
        invariant
            i <= tracks@.len(),
            forall|k: int| 0 <= k < i ==> tracks@[k].id@ != id@,
        decreases tracks@.len() - i,
    {
        if tracks[i].id.value() == id.value() {
            proof {
                lemma_index_of_id(tracks@, id@, i as int);
            }
            return Some(i);
        }
        i = i + 1;
    }
    proof {
        lemma_index_of_id(tracks@, id@, tracks@.len() as int);
    }
    None
}

/// `index_of_id` is the first index holding `id`.
proof fn lemma_index_of_id(ts: Seq<Track>, id: i64, i: int)
    requires
        0 <= i <= ts.len(),
        forall|k: int| 0 <= k < i ==> ts[k].id@ != id,
    ensures
        i < ts.len() && ts[i].id@ == id ==> index_of_id(ts, id) == i,
        i == ts.len() ==> index_of_id(ts, id) == -1,
        -1 <= index_of_id(ts, id) < ts.len(),
    decreases ts.len(),
{
    if ts.len() > 0 {
        if ts[0].id@ != id {
            assert forall|k: int| 0 <= k < i - 1 implies ts.drop_first()[k].id@ != id by {
                assert(ts.drop_first()[k] == ts[k + 1]);
            }
            if i > 0 {
                lemma_index_of_id(ts.drop_first(), id, i - 1);
            } else {
                lemma_index_of_id(ts.drop_first(), id, 0);
            }
        }
    }
}

impl Player {
    /// A player with an empty queue and no timer running.
    pub fn new() -> (r: Self)
        ensures
            r@ == (PlayerModel {
                queue: QueueModel { tracks: Seq::empty(), cursor: 0 },
                ticking: false,
            }),
    {
        Player { queue: Queue::empty(), ticking: false }
    }

    /// Whether the position timer runs: the loop waits for the next command
    /// at most a tick long, and reports `Tick` when none came.
    pub fn is_ticking(&self) -> (r: bool)
        ensures
            r == self@.ticking,
    {
        self.ticking
    }

    /// The queue.
    pub fn queue(&self) -> (r: &Queue)
        ensures
            r@ == self@.queue,
    {
        &self.queue
    }

    fn current_path(&self) -> (r: Option<TrackPath>)
        ensures
            match r {
                Some(p) => current_path(self@.queue) == Some(p@),
                None => current_path(self@.queue) is None,
            },
    {
        match self.queue.current() {
            Some(t) => Some(t.path.clone()),
            None => None,
        }
    }

    fn state_of_current(&self, make: u8, pos: SeekPosition) -> (r: Option<PlaybackState>)
        ensures
            match current_of(self@.queue) {
                Some(t) => r matches Some(s) && s@ == if make == 0 {
                    StateModel::Playing(t.id@, pos@)
                } else {
                    StateModel::Paused(t.id@, pos@)
                },
                None => r is None,
            },
    {
        match self.queue.current() {
            Some(t) => if make == 0 {
                Some(PlaybackState::Playing { track: t.id, position: pos })
            } else {
                Some(PlaybackState::Paused { track: t.id, position: pos })
            },
            None => None,
        }
    }

    fn stop_all(&mut self, out: &mut Vec<PlayerEffect>)
        requires
            old(out)@.len() == 0,
        ensures
            (final(self)@, effects_view(final(out)@)) == stopped(),
    {
        self.queue = Queue::empty();
        self.ticking = false;
        out.push(PlayerEffect::Stop);
        out.push(PlayerEffect::QueueChanged(Vec::new()));
        out.push(PlayerEffect::StateChanged(PlaybackState::Stopped));
        assert(effects_view(out@) =~= stopped().1);
    }

    fn handle_command(&mut self, cmd: PlayerCommand) -> (r: Vec<PlayerEffect>)
        ensures
            (final(self)@, effects_view(r@)) == command_step(old(self)@, cmd@),
    {
        let mut out: Vec<PlayerEffect> = Vec::new();
        let ghost m = self@;
        proof {
            use_type_invariant(&self.queue);
            self.queue.lemma_well_formed();
        }
        match cmd {
            PlayerCommand::Play(track) => {
                let t = *track;
                let path = t.path.clone();
                let mut one: Vec<Track> = Vec::new();
                one.push(t.clone());
                self.queue = Queue::single(t);
                out.push(PlayerEffect::QueueChanged(one));
                out.push(PlayerEffect::PlayCurrent(Some(path)));
                assert(effects_view(out@) =~= command_step(m, cmd@).1);
            },
            PlayerCommand::PlayQueue { tracks, start } => {
                let snapshot = crate::track::clone_tracks(tracks.as_slice());
                self.queue = Queue::new(tracks, start);
                out.push(PlayerEffect::QueueChanged(snapshot));
                let p = self.current_path();
                out.push(PlayerEffect::PlayCurrent(p));
                assert(effects_view(out@) =~= command_step(m, cmd@).1);
            },
            PlayerCommand::Enqueue(tracks) => {
                let was_empty = self.queue.is_empty();
                self.queue.append(tracks);
                let snapshot = crate::track::clone_tracks(self.queue.tracks());
                out.push(PlayerEffect::QueueChanged(snapshot));
                if was_empty {
                    let p = self.current_path();
                    out.push(PlayerEffect::PlayCurrent(p));
                }
                assert(effects_view(out@) =~= command_step(m, cmd@).1);
            },
            PlayerCommand::RestorePaused { tracks, start, position } => {
                let snapshot = crate::track::clone_tracks(tracks.as_slice());
                self.queue = Queue::new(tracks, start);
                self.ticking = false;
                out.push(PlayerEffect::QueueChanged(snapshot));
                match self.current_path() {
                    Some(p) => out.push(PlayerEffect::PlayPaused(p, position)),
                    None => {},
                }
                assert(effects_view(out@) =~= command_step(m, cmd@).1);
            },
            PlayerCommand::SetQueue(tracks) => {
                let current_id = match self.queue.current() {
                    Some(t) => Some(t.id),
                    None => None,
                };
                match current_id {
                    Some(id) => match index_of(&tracks, id) {
                        Some(i) => {
                            let snapshot = crate::track::clone_tracks(tracks.as_slice());
                            self.queue = Queue::new(tracks, i);
                            out.push(PlayerEffect::QueueChanged(snapshot));
                            assert(effects_view(out@) =~= command_step(m, cmd@).1);
                        },
                        None => {
                            self.stop_all(&mut out);
                        },
                    },
                    None => {
                        let snapshot = crate::track::clone_tracks(tracks.as_slice());
                        self.queue = Queue::new(tracks, 0);
                        out.push(PlayerEffect::QueueChanged(snapshot));
                        assert(effects_view(out@) =~= command_step(m, cmd@).1);
                    },
                }
            },
            PlayerCommand::Pause => {
                self.ticking = false;
                out.push(PlayerEffect::Pause);
                assert(effects_view(out@) =~= command_step(m, cmd@).1);
            },
            PlayerCommand::Resume => {
                out.push(PlayerEffect::Resume);
                assert(effects_view(out@) =~= command_step(m, cmd@).1);
            },
            PlayerCommand::Stop => {
                self.stop_all(&mut out);
            },
            PlayerCommand::Seek(position) => {
                out.push(PlayerEffect::Seek(position));
                assert(effects_view(out@) =~= command_step(m, cmd@).1);
            },
            PlayerCommand::Next => {
                if self.queue.advance().is_some() {
                    let p = self.current_path();
                    out.push(PlayerEffect::PlayCurrent(p));
                }
                assert(effects_view(out@) =~= command_step(m, cmd@).1);
            },
            PlayerCommand::Previous => {
                if self.queue.rewind().is_some() {
                    let p = self.current_path();
                    out.push(PlayerEffect::PlayCurrent(p));
                }
                assert(effects_view(out@) =~= command_step(m, cmd@).1);
            },
        }
        out
    }

    fn report(&mut self, s: Option<PlaybackState>) -> (r: Vec<PlayerEffect>)
        ensures
            final(self)@ == old(self)@,
            effects_view(r@) == match s {
                Some(x) => seq![EffectModel::StateChanged(x@)],
                None => Seq::<EffectModel>::empty(),
            },
    {
        let ghost gs = s;
        let mut out: Vec<PlayerEffect> = Vec::new();
        match s {
            Some(x) => out.push(PlayerEffect::StateChanged(x)),
            None => {},
        }
        proof {
            match gs {
                Some(x) => assert(effects_view(out@) =~= seq![EffectModel::StateChanged(x@)]),
                None => assert(effects_view(out@) =~= Seq::<EffectModel>::empty()),
            }
        }
        out
    }

    /// Reacts to `event`: updates the queue and the timer, and returns the
    /// effects for the loop to perform, in order.
    pub fn handle(&mut self, event: PlayerEvent) -> (r: Vec<PlayerEffect>)
        ensures
            (final(self)@, effects_view(r@)) == player_step(old(self)@, event@),
    {
        let ghost ev = event@;
        proof {
            use_type_invariant(&self.queue);
            self.queue.lemma_well_formed();
        }
        match event {
            PlayerEvent::Command(cmd) => self.handle_command(cmd),
            PlayerEvent::Tick(backend, position) => {
                if self.queue.is_empty() {
                    self.ticking = false;
                    let r: Vec<PlayerEffect> = Vec::new();
                    assert(effects_view(r@) =~= Seq::<EffectModel>::empty());
                    return r;
                }
                match backend {
                    BackendState::Playing => {
                        let s = self.state_of_current(0, position);
                        self.report(s)
                    },
                    BackendState::Paused => self.report(None),
                    BackendState::Idle => {
                        let mut out: Vec<PlayerEffect> = Vec::new();
                        if self.queue.advance().is_some() {
                            let p = self.current_path();
                            out.push(PlayerEffect::PlayCurrent(p));
                            assert(effects_view(out@) =~= seq![
                                EffectModel::PlayCurrent(current_path(self@.queue)),
                            ]);
                        } else {
                            self.stop_all(&mut out);
                        }
                        out
                    },
                }
            },
            PlayerEvent::Played(outcome, backend) => {
                self.ticking = match backend {
                    BackendState::Playing => true,
                    _ => false,
                };
                let s = match self.queue.current() {
                    Some(t) => match outcome {
                        Some(Ok(())) => Some(
                            PlaybackState::Playing { track: t.id, position: SeekPosition::zero() },
                        ),
                        Some(Err(e)) => Some(
                            PlaybackState::Failed { track: t.id, error: e.message() },
                        ),
                        None => None,
                    },
                    None => None,
                };
                self.report(s)
            },
            PlayerEvent::Restored(outcome, position) => {
                self.ticking = false;
                let s = match self.queue.current() {
                    Some(t) => match outcome {
                        Ok(()) => Some(PlaybackState::Paused { track: t.id, position }),
                        Err(e) => Some(PlaybackState::Failed { track: t.id, error: e.message() }),
                    },
                    None => None,
                };
                self.report(s)
            },
            PlayerEvent::Paused(position) => {
                let s = self.state_of_current(1, position);
                self.report(s)
            },
            PlayerEvent::Resumed(backend, position) => {
                let now_playing = match backend {
                    BackendState::Playing => true,
                    _ => false,
                };
                self.ticking = now_playing;
                if now_playing {
                    let s = self.state_of_current(0, position);
                    self.report(s)
                } else {
                    self.report(None)
                }
            },
            PlayerEvent::Sought(backend, position) => {
                let paused = match backend {
                    BackendState::Paused => true,
                    _ => false,
                };
                let s = self.state_of_current(
                    if paused {
                        1
                    } else {
                        0
                    },
                    position,
                );
                self.report(s)
            },
        }
    }
}

} // verus!
