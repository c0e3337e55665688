use musicplayer_rs::player::PlaybackState;
use musicplayer_rs::player::SeekPosition;
use musicplayer_rs::session::current_in;
use musicplayer_rs::session::enqueue_start;
use musicplayer_rs::session::position_save;
use musicplayer_rs::session::pruned_queue;
use musicplayer_rs::session::queue_after_edit;
use musicplayer_rs::session::restore_start;
use musicplayer_rs::track::AlbumTitle;
use musicplayer_rs::track::Artist;
use musicplayer_rs::track::Composer;
use musicplayer_rs::track::DiscNumber;
use musicplayer_rs::track::Genre;
use musicplayer_rs::track::Title;
use musicplayer_rs::track::Track;
use musicplayer_rs::track::TrackDuration;
use musicplayer_rs::track::TrackId;
use musicplayer_rs::track::TrackNumber;
use musicplayer_rs::track::TrackPath;
use musicplayer_rs::track::Year;

fn geogaddi(id: i64, title: &str) -> Track {
    Track {
        id: TrackId::new(id),
        path: TrackPath::new(&format!("/music/geogaddi/{id:02}.flac")).unwrap(),
        title: Title::new(title),
        artist: Artist::new("Boards of Canada"),
        album_artist: Artist::new("Boards of Canada"),
        album: AlbumTitle::new("Geogaddi"),
        genre: Genre::new("Electronic"),
        composer: Composer::new(""),
        duration: TrackDuration::from_secs(200),
        track_number: TrackNumber::new(id as u32),
        disc_number: DiscNumber::new(1),
        year: Year::new(2002),
    }
}

fn queue() -> Vec<Track> {
    vec![geogaddi(1, "Ready Lets Go"), geogaddi(2, "Music Is Math"), geogaddi(3, "Beware the Friendly Stranger")]
}

#[test]
fn enqueue_start_clamps_to_the_last_track() {
    assert_eq!(enqueue_start(0, 0), None);
    assert_eq!(enqueue_start(3, 1), Some(1));
    assert_eq!(enqueue_start(3, 7), Some(2));
}

#[test]
fn restore_starts_at_the_saved_track_or_the_first() {
    let tracks = queue();
    assert_eq!(restore_start(&tracks, Some(3)), 2);
    assert_eq!(restore_start(&tracks, Some(99)), 0);
    assert_eq!(restore_start(&tracks, None), 0);
}

#[test]
fn highlight_only_a_track_in_the_queue() {
    let tracks = queue();
    assert_eq!(current_in(&tracks, Some(2)), Some(TrackId::new(2)));
    assert_eq!(current_in(&tracks, Some(9)), None);
    assert_eq!(current_in(&tracks, None), None);
}

#[test]
fn pruning_drops_tracks_gone_from_the_library() {
    let tracks = queue();
    let library = [TrackId::new(3), TrackId::new(1)];
    let kept = pruned_queue(&tracks, &library).unwrap();
    let ids: Vec<i64> = kept.iter().map(|t| t.id.value()).collect();
    assert_eq!(ids, vec![1, 3]);
}

#[test]
fn pruning_with_every_track_present_asks_for_nothing() {
    let tracks = queue();
    let library = [TrackId::new(3), TrackId::new(2), TrackId::new(1), TrackId::new(4)];
    assert!(pruned_queue(&tracks, &library).is_none());
}

#[test]
fn an_edit_replaces_the_saved_tracks_in_place() {
    let tracks = queue();
    let saved = vec![geogaddi(2, "Music Is Math (Remaster)")];
    let updated = queue_after_edit(&tracks, &saved).unwrap();
    assert_eq!(updated.len(), 3);
    assert_eq!(updated[1].title.as_str(), "Music Is Math (Remaster)");
    assert_eq!(updated[1].id, TrackId::new(2));
    assert_eq!(updated[0], tracks[0]);
}

#[test]
fn an_edit_that_changes_no_queued_track_asks_for_nothing() {
    let tracks = queue();
    assert!(queue_after_edit(&tracks, &[]).is_none());
    assert!(queue_after_edit(&tracks, &[geogaddi(8, "Dawn Chorus")]).is_none());
    assert!(queue_after_edit(&tracks, &[geogaddi(1, "Ready Lets Go")]).is_none());
}

#[test]
fn the_last_saved_version_of_a_track_wins() {
    let tracks = queue();
    let saved = vec![geogaddi(1, "First"), geogaddi(1, "Second")];
    let updated = queue_after_edit(&tracks, &saved).unwrap();
    assert_eq!(updated[0].title.as_str(), "Second");
}

#[test]
fn the_position_is_saved_once_per_second() {
    let playing = PlaybackState::Playing {
        track: TrackId::new(1),
        position: SeekPosition::from_millis(12_345),
    };
    assert_eq!(position_save(None, &playing), Some((12, 12_345)));
    assert_eq!(position_save(Some(12), &playing), None);
    assert_eq!(position_save(Some(11), &playing), Some((12, 12_345)));
    assert_eq!(position_save(None, &PlaybackState::Stopped), None);
}
