//! The main window's application state, how each change updates it, and
//! what the window does in answer to each event.
use vstd::prelude::*;

use crate::album::AlbumSort;
use crate::album::AlbumSortField;
use crate::album::SortDirection;
use crate::filter::LibraryFilter;
use crate::folder::LibraryFolder;
use crate::player::PlaybackState;
use crate::player::PlayerCommand;
use crate::track::TrackId;
use crate::ui::ViewMode;
use crate::track::clone_tracks;
use crate::track::Track;

verus! {

/// The main window's testable application state: the active library
/// filter, album sort, and play queue. No I/O, no widgets, no OS handles.
#[derive(Debug, PartialEq)]
pub struct WindowState {
    pub filter: LibraryFilter,
    pub sort: AlbumSort,
    pub queue: Vec<Track>,
}

impl Clone for WindowState {
    fn clone(&self) -> (r: Self)
        ensures
            r.filter == self.filter,
            r.sort == self.sort,
            r.queue@ == self.queue@,
    {
        WindowState {
            filter: self.filter.clone(),
            sort: self.sort,
            queue: clone_tracks(self.queue.as_slice()),
        }
    }
}

/// What a window message changes in the window state. Every message that
/// is not one of these (view mode, cover size, volume, scans, folders,
/// edits, playback state, queue requests awaiting the player's echo) leaves
/// the state as it is.
#[derive(Debug)]
pub enum StateChange {
    FilterSelected(LibraryFilter),
    SortFieldChanged(AlbumSortField),
    SortDirectionChanged(SortDirection),
    /// The player's queue changed.
    PlayerQueueChanged(Vec<Track>),
    Unrelated,
}

/// The pure state transition for `change`: each change replaces exactly
/// the part of the state it names.
pub fn reduce(state: WindowState, change: &StateChange) -> (r: WindowState)
    ensures
        match change {
            StateChange::FilterSelected(f) => r.filter == *f && r.sort == state.sort
                && r.queue@ == state.queue@,
            StateChange::SortFieldChanged(field) => r.filter == state.filter && r.sort
                == AlbumSort { field: *field, ..state.sort } && r.queue@ == state.queue@,
            StateChange::SortDirectionChanged(d) => r.filter == state.filter && r.sort
                == AlbumSort { direction: *d, ..state.sort } && r.queue@ == state.queue@,
            StateChange::PlayerQueueChanged(tracks) => r.filter == state.filter && r.sort
                == state.sort && r.queue@ == tracks@,
            StateChange::Unrelated => r == state,
        },
{
    match change {
        StateChange::FilterSelected(filter) => WindowState { filter: filter.clone(), ..state },
        StateChange::SortFieldChanged(field) => WindowState {
            sort: AlbumSort { field: *field, ..state.sort },
            ..state
        },
        StateChange::SortDirectionChanged(direction) => WindowState {
            sort: AlbumSort { direction: *direction, ..state.sort },
            ..state
        },
        StateChange::PlayerQueueChanged(tracks) => WindowState {
            queue: clone_tracks(tracks.as_slice()),
            ..state
        },
        StateChange::Unrelated => state,
    }
}

/// An event the main window answers, with what it carries.
#[derive(Debug)]
pub enum WindowEvent {
    FilterSelected(LibraryFilter),
    /// The album sort's field or direction changed.
    SortChanged,
    ViewModeChanged(ViewMode),
    CoverSizeChanged(i32),
    VolumeChanged,
    /// Play `tracks` from `start`.
    Enqueue(Vec<Track>, usize),
    /// Play the queue from the track at this index.
    QueueTrackSelected(usize),
    AppendToQueue(Vec<Track>),
    /// The player's queue changed.
    PlayerQueueChanged(Vec<Track>),
    PlayerStateChanged(PlaybackState),
    /// A scan was asked for, by the user or by the folder watcher.
    ScanRequested,
    /// A running scan has indexed this many files.
    ScanProgress(u32),
    /// A scan finished: successfully, or not.
    ScanFinished(bool),
    FolderAdded(LibraryFolder),
    FolderRemoved(LibraryFolder),
    /// A metadata edit finished saving: whether it can change album covers,
    /// the tracks saved, and whether it stopped on an error.
    EditSaved { affects_art: bool, saved: Vec<Track>, failed: bool },
}

/// Something the window does in answer to an event. The effects of one
/// event are performed in order; one that fails (a store write) ends the
/// answer there.
#[derive(Debug)]
pub enum WindowEffect {
    /// List the tracks this filter selects.
    ShowTracks(LibraryFilter),
    /// Fill the album grid for this filter and sort.
    RefreshAlbumGrid(LibraryFilter, AlbumSort),
    SaveAlbumSort(AlbumSort),
    ShowView(ViewMode),
    SaveViewMode(ViewMode),
    SetCoverSize(i32),
    SaveCoverSize(i32),
    /// Save the volume the event's slider holds.
    SaveVolume,
    /// Show this track in the player bar.
    ShowNowPlaying(Track),
    SaveQueueCurrent(TrackId),
    SendToPlayer(PlayerCommand),
    ShowQueue(Vec<Track>),
    SaveQueue(Vec<TrackId>),
    /// Highlight the saved current track, if it is in the shown queue.
    HighlightSavedCurrent,
    ShowPlaybackState(PlaybackState),
    StartScan,
    ShowScanProgress(u32),
    /// Stop the scan indicator.
    EndScan,
    /// Drop every decoded cover, so they are read again.
    InvalidateAllArt,
    /// Reload the track list, sidebar and album grid.
    RefreshViews,
    AddFolder(LibraryFolder),
    RemoveFolder(LibraryFolder),
    RefreshFolderList,
    /// Watch the library's folders afresh.
    Rewatch,
    /// Drop the queued tracks gone from the library.
    PruneQueue,
    /// Drop the decoded covers of these tracks' albums.
    InvalidateArtFor(Vec<Track>),
    /// Put the saved versions of these tracks in the queue.
    SyncQueueAfterEdit(Vec<Track>),
    /// Report how many tracks an edit saved, and whether it failed.
    ShowEditStatus { saved: usize, failed: bool },
}

/// The ids of `tracks`, in order.
pub open spec fn ids_of(tracks: Seq<Track>) -> Seq<TrackId> {
    tracks.map_values(|t: Track| t.id)
}

/// What playing `tracks` from `start` does: nothing for no tracks;
/// otherwise, with `start` held to the last track, show that track, save it
/// as the current one, and send the player the queue from it.
pub open spec fn enqueue_effects(tracks: Seq<Track>, start: usize, r: Seq<WindowEffect>) -> bool {
    if tracks.len() == 0 {
        r.len() == 0
    } else {
        let s = if start < tracks.len() {
            start as int
        } else {
            tracks.len() - 1
        };
        &&& r.len() == 3
        &&& r[0] == WindowEffect::ShowNowPlaying(tracks[s])
        &&& r[1] == WindowEffect::SaveQueueCurrent(tracks[s].id)
        &&& (r[2] matches WindowEffect::SendToPlayer(PlayerCommand::PlayQueue { tracks: t, start: k })
            && t@ == tracks && k == s)
    }
}

/// The effects the window performs in answer to `event`, given the state
/// that event has already led to.
pub open spec fn effects_match(state: WindowState, event: WindowEvent, r: Seq<WindowEffect>) -> bool {
    match event {
        WindowEvent::FilterSelected(f) => r == seq![
            WindowEffect::ShowTracks(f),
            WindowEffect::RefreshAlbumGrid(state.filter, state.sort),
        ],
        WindowEvent::SortChanged => r == seq![
            WindowEffect::SaveAlbumSort(state.sort),
            WindowEffect::RefreshAlbumGrid(state.filter, state.sort),
        ],
        WindowEvent::ViewModeChanged(m) => r == seq![
            WindowEffect::ShowView(m),
            WindowEffect::SaveViewMode(m),
        ],
        WindowEvent::CoverSizeChanged(px) => r == seq![
            WindowEffect::SetCoverSize(px),
            WindowEffect::SaveCoverSize(px),
        ],
        WindowEvent::VolumeChanged => r == seq![WindowEffect::SaveVolume],
        WindowEvent::Enqueue(tracks, start) => enqueue_effects(tracks@, start, r),
        WindowEvent::QueueTrackSelected(i) => enqueue_effects(state.queue@, i, r),
        WindowEvent::AppendToQueue(tracks) => r.len() == 1 && (r[0] matches WindowEffect::SendToPlayer(
            PlayerCommand::Enqueue(t),
        ) && t@ == tracks@),
        WindowEvent::PlayerQueueChanged(tracks) => {
            &&& r.len() == 3
            &&& (r[0] matches WindowEffect::ShowQueue(t) && t@ == tracks@)
            &&& (r[1] matches WindowEffect::SaveQueue(ids) && ids@ == ids_of(tracks@))
            &&& r[2] == WindowEffect::HighlightSavedCurrent
        },
        WindowEvent::PlayerStateChanged(ps) => r == seq![WindowEffect::ShowPlaybackState(ps)],
        WindowEvent::ScanRequested => r == seq![WindowEffect::StartScan],
        WindowEvent::ScanProgress(n) => r == seq![WindowEffect::ShowScanProgress(n)],
        WindowEvent::ScanFinished(ok) => r == if ok {
            seq![WindowEffect::EndScan, WindowEffect::InvalidateAllArt, WindowEffect::RefreshViews]
        } else {
            seq![WindowEffect::EndScan]
        },
        WindowEvent::FolderAdded(f) => r == seq![
            WindowEffect::AddFolder(f),
            WindowEffect::RefreshFolderList,
            WindowEffect::Rewatch,
            WindowEffect::StartScan,
        ],
        WindowEvent::FolderRemoved(f) => r == seq![
            WindowEffect::RemoveFolder(f),
            WindowEffect::RefreshFolderList,
            WindowEffect::Rewatch,
            WindowEffect::RefreshViews,
            WindowEffect::PruneQueue,
        ],
        WindowEvent::EditSaved { affects_art, saved, failed } => {
            let k: int = if affects_art {
                1
            } else {
                0
            };
            &&& r.len() == k + 3
            &&& affects_art ==> (r[0] matches WindowEffect::InvalidateArtFor(t) && t@ == saved@)
            &&& r[k] == WindowEffect::RefreshViews
            &&& (r[k + 1] matches WindowEffect::SyncQueueAfterEdit(t) && t@ == saved@)
            &&& r[k + 2] == WindowEffect::ShowEditStatus { saved: saved@.len() as usize, failed }
        },
    }
}

/// The effects of playing `tracks` from `start`.
fn enqueue(tracks: Vec<Track>, start: usize) -> (r: Vec<WindowEffect>)
    ensures
        enqueue_effects(tracks@, start, r@),
{
    if tracks.len() == 0 {
        return Vec::new();
    }
    let s: usize = if start < tracks.len() {
        start
    } else {
        tracks.len() - 1
    };
    let current = tracks[s].clone();
    let id = tracks[s].id;
    let mut r: Vec<WindowEffect> = Vec::new();
    r.push(WindowEffect::ShowNowPlaying(current));
    r.push(WindowEffect::SaveQueueCurrent(id));
    r.push(WindowEffect::SendToPlayer(PlayerCommand::PlayQueue { tracks, start: s }));
    r
}

/// The ids of `tracks`, in order.
fn track_ids(tracks: &[Track]) -> (r: Vec<TrackId>)
    ensures
        r@ == ids_of(tracks@),
{
    let mut r: Vec<TrackId> = Vec::new();
    let mut i: usize = 0;
    while i < tracks.len()
        invariant
            i <= tracks@.len(),
            r@ == ids_of(tracks@.take(i as int)),
        decreases tracks@.len() - i,
    {
        r.push(tracks[i].id);
        assert(ids_of(tracks@.take(i + 1)) =~= ids_of(tracks@.take(i as int)).push(tracks@[i as int].id));
        i = i + 1;
    }
    assert(tracks@.take(tracks@.len() as int) =~= tracks@);
    r
}

/// What the window does in answer to `event`, given `state`, the window
/// state the event has already led to.
pub fn window_effects(state: &WindowState, event: WindowEvent) -> (r: Vec<WindowEffect>)
    ensures
        effects_match(*state, event, r@),
{
    let mut r: Vec<WindowEffect> = Vec::new();
    match event {
        WindowEvent::FilterSelected(f) => {
            r.push(WindowEffect::ShowTracks(f));
            r.push(WindowEffect::RefreshAlbumGrid(state.filter.clone(), state.sort));
            assert(r@ =~= seq![
                WindowEffect::ShowTracks(f),
                WindowEffect::RefreshAlbumGrid(state.filter, state.sort),
            ]);
        },
        WindowEvent::SortChanged => {
            r.push(WindowEffect::SaveAlbumSort(state.sort));
            r.push(WindowEffect::RefreshAlbumGrid(state.filter.clone(), state.sort));
            assert(r@ =~= seq![
                WindowEffect::SaveAlbumSort(state.sort),
                WindowEffect::RefreshAlbumGrid(state.filter, state.sort),
            ]);
        },
        WindowEvent::ViewModeChanged(m) => {
            r.push(WindowEffect::ShowView(m));
            r.push(WindowEffect::SaveViewMode(m));
            assert(r@ =~= seq![WindowEffect::ShowView(m), WindowEffect::SaveViewMode(m)]);
        },
        WindowEvent::CoverSizeChanged(px) => {
            r.push(WindowEffect::SetCoverSize(px));
            r.push(WindowEffect::SaveCoverSize(px));
            assert(r@ =~= seq![WindowEffect::SetCoverSize(px), WindowEffect::SaveCoverSize(px)]);
        },
        WindowEvent::VolumeChanged => {
            r.push(WindowEffect::SaveVolume);
            assert(r@ =~= seq![WindowEffect::SaveVolume]);
        },
        WindowEvent::Enqueue(tracks, start) => {
            r = enqueue(tracks, start);
        },
        WindowEvent::QueueTrackSelected(i) => {
            r = enqueue(clone_tracks(state.queue.as_slice()), i);
        },
        WindowEvent::AppendToQueue(tracks) => {
            r.push(WindowEffect::SendToPlayer(PlayerCommand::Enqueue(tracks)));
        },
        WindowEvent::PlayerQueueChanged(tracks) => {
            let ids = track_ids(tracks.as_slice());
            r.push(WindowEffect::ShowQueue(tracks));
            r.push(WindowEffect::SaveQueue(ids));
            r.push(WindowEffect::HighlightSavedCurrent);
        },
        WindowEvent::PlayerStateChanged(ps) => {
            r.push(WindowEffect::ShowPlaybackState(ps));
            assert(r@ =~= seq![WindowEffect::ShowPlaybackState(ps)]);
        },
        WindowEvent::ScanRequested => {
            r.push(WindowEffect::StartScan);
            assert(r@ =~= seq![WindowEffect::StartScan]);
        },
        WindowEvent::ScanProgress(n) => {
            r.push(WindowEffect::ShowScanProgress(n));
            assert(r@ =~= seq![WindowEffect::ShowScanProgress(n)]);
        },
        WindowEvent::ScanFinished(ok) => {
            r.push(WindowEffect::EndScan);
            if ok {
                r.push(WindowEffect::InvalidateAllArt);
                r.push(WindowEffect::RefreshViews);
                assert(r@ =~= seq![
                    WindowEffect::EndScan,
                    WindowEffect::InvalidateAllArt,
                    WindowEffect::RefreshViews,
                ]);
            } else {
                assert(r@ =~= seq![WindowEffect::EndScan]);
            }
        },
        WindowEvent::FolderAdded(f) => {
            r.push(WindowEffect::AddFolder(f));
            r.push(WindowEffect::RefreshFolderList);
            r.push(WindowEffect::Rewatch);
            r.push(WindowEffect::StartScan);
            assert(r@ =~= seq![
                WindowEffect::AddFolder(f),
                WindowEffect::RefreshFolderList,
                WindowEffect::Rewatch,
                WindowEffect::StartScan,
            ]);
        },
        WindowEvent::FolderRemoved(f) => {
            r.push(WindowEffect::RemoveFolder(f));
            r.push(WindowEffect::RefreshFolderList);
            r.push(WindowEffect::Rewatch);
            r.push(WindowEffect::RefreshViews);
            r.push(WindowEffect::PruneQueue);
            assert(r@ =~= seq![
                WindowEffect::RemoveFolder(f),
                WindowEffect::RefreshFolderList,
                WindowEffect::Rewatch,
                WindowEffect::RefreshViews,
                WindowEffect::PruneQueue,
            ]);
        },
        WindowEvent::EditSaved { affects_art, saved, failed } => {
            let count: usize = saved.len();
            if affects_art {
                r.push(WindowEffect::InvalidateArtFor(clone_tracks(saved.as_slice())));
            }
            r.push(WindowEffect::RefreshViews);
            r.push(WindowEffect::SyncQueueAfterEdit(saved));
            r.push(WindowEffect::ShowEditStatus { saved: count, failed });
        },
    }
    r
}

/// Playing no tracks does nothing, and playing from past the end plays the
/// last track.
pub proof fn law_enqueue_holds_start_to_the_last_track(
    tracks: Seq<Track>,
    start: usize,
    r: Seq<WindowEffect>,
)
    requires
        enqueue_effects(tracks, start, r),
    ensures
        tracks.len() == 0 ==> r.len() == 0,
        tracks.len() > 0 && start >= tracks.len() ==> r[0] == WindowEffect::ShowNowPlaying(
            tracks.last(),
        ),
{
}

} // verus!
