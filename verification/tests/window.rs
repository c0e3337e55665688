use musicplayer_rs::album::AlbumSort;
use musicplayer_rs::album::AlbumSortField;
use musicplayer_rs::album::SortDirection;
use musicplayer_rs::filter::LibraryFilter;
use musicplayer_rs::track::AlbumTitle;
use musicplayer_rs::track::Artist;
use musicplayer_rs::track::Composer;
use musicplayer_rs::track::DiscNumber;
use musicplayer_rs::track::Genre;
use musicplayer_rs::track::Title;
use musicplayer_rs::track::Track;
use musicplayer_rs::track::TrackDuration;
use musicplayer_rs::track::TrackId;
use musicplayer_rs::track::TrackNumber;
use musicplayer_rs::track::TrackPath;
use musicplayer_rs::track::Year;
use musicplayer_rs::player::PlayerCommand;
use musicplayer_rs::window::reduce;
use musicplayer_rs::window::window_effects;
use musicplayer_rs::window::WindowEffect;
use musicplayer_rs::window::WindowEvent;
use musicplayer_rs::window::StateChange;
use musicplayer_rs::window::WindowState;

fn roygbiv() -> Track {
    Track {
        id: TrackId::new(7),
        path: TrackPath::new("/music/boc/roygbiv.flac").unwrap(),
        title: Title::new("Roygbiv"),
        artist: Artist::new("Boards of Canada"),
        album_artist: Artist::new("Boards of Canada"),
        album: AlbumTitle::new("Music Has the Right to Children"),
        genre: Genre::new("Electronic"),
        composer: Composer::new(""),
        duration: TrackDuration::from_secs(139),
        track_number: TrackNumber::new(7),
        disc_number: DiscNumber::new(1),
        year: Year::new(1998),
    }
}

fn initial() -> WindowState {
    WindowState {
        filter: LibraryFilter::All,
        sort: AlbumSort::default(),
        queue: vec![roygbiv()],
    }
}

#[test]
fn reduce_filter_selected_updates_filter_and_leaves_sort_and_queue() {
    let filter = LibraryFilter::ByGenre(Genre::new("Ambient"));
    let state = reduce(initial(), &StateChange::FilterSelected(filter.clone()));
    assert_eq!(state.filter, filter);
    assert_eq!(state.sort, initial().sort);
    assert_eq!(state.queue, initial().queue);
}

#[test]
fn reduce_sort_field_changed_updates_only_the_field() {
    let state = reduce(initial(), &StateChange::SortFieldChanged(AlbumSortField::Year));
    assert_eq!(state.sort.field, AlbumSortField::Year);
    assert_eq!(state.sort.direction, SortDirection::Ascending);
    assert_eq!(state.filter, LibraryFilter::All);
}

#[test]
fn reduce_sort_direction_changed_updates_only_the_direction() {
    let state = reduce(
        initial(),
        &StateChange::SortDirectionChanged(SortDirection::Descending),
    );
    assert_eq!(state.sort.direction, SortDirection::Descending);
    assert_eq!(state.sort.field, AlbumSortField::AlbumArtist);
}

#[test]
fn reduce_player_queue_changed_replaces_the_queue() {
    let state = reduce(initial(), &StateChange::PlayerQueueChanged(Vec::new()));
    assert!(state.queue.is_empty());
    assert_eq!(state.filter, LibraryFilter::All);
}

#[test]
fn reduce_volume_changed_leaves_state_unchanged() {
    let state = reduce(initial(), &StateChange::Unrelated);
    assert_eq!(state, initial());
}

fn track(id: i64, title: &str) -> Track {
    let mut t = roygbiv();
    t.id = TrackId::new(id);
    t.title = Title::new(title);
    t
}

#[test]
fn an_empty_enqueue_sends_nothing() {
    assert!(window_effects(&initial(), WindowEvent::Enqueue(Vec::new(), 3)).is_empty());
}

#[test]
fn an_enqueue_holds_its_start_to_the_last_track_and_plays_from_it() {
    let tracks = vec![track(1, "a"), track(2, "b")];
    let effects = window_effects(&initial(), WindowEvent::Enqueue(tracks.clone(), 9));
    assert_eq!(effects.len(), 3);
    assert!(matches!(&effects[0], WindowEffect::ShowNowPlaying(t) if t.id == TrackId::new(2)));
    assert!(matches!(&effects[1], WindowEffect::SaveQueueCurrent(id) if *id == TrackId::new(2)));
    assert!(matches!(&effects[2],
        WindowEffect::SendToPlayer(PlayerCommand::PlayQueue { tracks: t, start: 1 }) if *t == tracks));
}

#[test]
fn selecting_a_queue_row_plays_the_queue_from_it_and_an_append_enqueues() {
    let effects = window_effects(&initial(), WindowEvent::QueueTrackSelected(0));
    assert!(matches!(&effects[2],
        WindowEffect::SendToPlayer(PlayerCommand::PlayQueue { start: 0, .. })));
    let appended = window_effects(&initial(), WindowEvent::AppendToQueue(vec![track(3, "c")]));
    assert_eq!(appended.len(), 1);
    assert!(matches!(&appended[0], WindowEffect::SendToPlayer(PlayerCommand::Enqueue(t)) if t.len() == 1));
}

#[test]
fn a_player_queue_change_is_shown_saved_and_highlighted() {
    let effects = window_effects(&initial(), WindowEvent::PlayerQueueChanged(vec![track(4, "d"), track(5, "e")]));
    assert!(matches!(&effects[0], WindowEffect::ShowQueue(t) if t.len() == 2));
    assert!(matches!(&effects[1], WindowEffect::SaveQueue(ids) if *ids == vec![TrackId::new(4), TrackId::new(5)]));
    assert!(matches!(&effects[2], WindowEffect::HighlightSavedCurrent));
}

#[test]
fn a_filter_and_a_sort_refresh_the_views_and_folders_rescan() {
    let effects = window_effects(&initial(), WindowEvent::FilterSelected(LibraryFilter::All));
    assert!(matches!(&effects[0], WindowEffect::ShowTracks(LibraryFilter::All)));
    assert!(matches!(&effects[1], WindowEffect::RefreshAlbumGrid(LibraryFilter::All, _)));
    let sorted = window_effects(&initial(), WindowEvent::SortChanged);
    assert!(matches!(&sorted[0], WindowEffect::SaveAlbumSort(_)));
    assert_eq!(window_effects(&initial(), WindowEvent::ScanFinished(false)).len(), 1);
    assert_eq!(window_effects(&initial(), WindowEvent::ScanFinished(true)).len(), 3);
}

#[test]
fn a_saved_edit_invalidates_art_only_when_it_can_change_covers() {
    let with_art = window_effects(&initial(), WindowEvent::EditSaved {
        affects_art: true,
        saved: vec![track(1, "a")],
        failed: false,
    });
    assert_eq!(with_art.len(), 4);
    assert!(matches!(&with_art[0], WindowEffect::InvalidateArtFor(t) if t.len() == 1));
    assert!(matches!(&with_art[3], WindowEffect::ShowEditStatus { saved: 1, failed: false }));
    let without = window_effects(&initial(), WindowEvent::EditSaved {
        affects_art: false,
        saved: Vec::new(),
        failed: true,
    });
    assert_eq!(without.len(), 3);
    assert!(matches!(&without[0], WindowEffect::RefreshViews));
}
