use musicplayer_rs::menu::album_menu_labels;
use musicplayer_rs::menu::row_batch;
use musicplayer_rs::menu::track_menu;
use musicplayer_rs::menu::MenuAction;
use musicplayer_rs::track::AlbumTitle;
use musicplayer_rs::track::Artist;
use musicplayer_rs::track::Composer;
use musicplayer_rs::track::DiscNumber;
use musicplayer_rs::track::Genre;
use musicplayer_rs::track::Title;
use musicplayer_rs::track::Track;
use musicplayer_rs::track::TrackDuration;
use musicplayer_rs::track::TrackId;
use musicplayer_rs::track::TrackNumber;
use musicplayer_rs::track::TrackPath;
use musicplayer_rs::track::Year;

fn geogaddi_track() -> Track {
    Track {
        id: TrackId::new(1),
        path: TrackPath::new("/home/user/Music/boc/geogaddi/01_alpha_and_omega.flac").unwrap(),
        title: Title::new("Alpha and Omega"),
        artist: Artist::new("Boards of Canada"),
        album_artist: Artist::new(""),
        album: AlbumTitle::new("Geogaddi"),
        genre: Genre::new("Ambient"),
        composer: Composer::new(""),
        duration: TrackDuration::from_secs(133),
        track_number: TrackNumber::new(1),
        disc_number: DiscNumber::new(1),
        year: Year::new(2002),
    }
}

fn labels(track: &Track, batch: Option<Vec<Track>>, enqueue: bool, edit: bool) -> Vec<String> {
    track_menu(track, batch, enqueue, edit)
        .entries
        .into_iter()
        .map(|e| e.label)
        .collect()
}

#[test]
fn track_actions_uses_singular_labels_when_batch_is_none() {
    let track = geogaddi_track();
    assert_eq!(labels(&track, None, true, true), vec!["Add to Queue", "Edit Track…"]);
}

#[test]
fn track_actions_uses_batch_labels_when_batch_is_some() {
    let track = geogaddi_track();
    let mut second = geogaddi_track();
    second.title = Title::new("In a Beautiful Place Out in the Country");
    assert_eq!(
        labels(&track, Some(vec![track.clone(), second]), true, true),
        vec!["Add 2 to Queue", "Edit 2 Tracks…"]
    );
}

#[test]
fn track_actions_omits_enqueue_when_no_handler_is_registered() {
    let track = geogaddi_track();
    assert_eq!(labels(&track, None, false, true), vec!["Edit Track…"]);
}

#[test]
fn track_actions_omits_edit_when_no_handler_is_registered() {
    let track = geogaddi_track();
    assert_eq!(labels(&track, None, true, false), vec!["Add to Queue"]);
}

#[test]
fn track_actions_invokes_the_enqueue_callback_with_the_batch() {
    let track = geogaddi_track();
    let mut second = geogaddi_track();
    second.id = TrackId::new(2);
    let menu = track_menu(&track, Some(vec![track.clone(), second.clone()]), true, false);
    assert_eq!(menu.entries[0].action, MenuAction::Enqueue);
    assert_eq!(menu.tracks, vec![track, second]);
}

#[test]
fn a_single_rows_actions_apply_to_its_own_track() {
    let track = geogaddi_track();
    let menu = track_menu(&track, None, true, true);
    assert_eq!(menu.tracks, vec![track]);
    assert_eq!(menu.entries[1].action, MenuAction::Edit);
    assert!(track_menu(&geogaddi_track(), None, false, false).entries.is_empty());
}

#[test]
fn an_album_menu_names_the_batch_or_the_album() {
    assert_eq!(
        album_menu_labels(Some(3)),
        ("Add 3 Albums to Queue".to_string(), "Edit 3 Albums…".to_string())
    );
    assert_eq!(album_menu_labels(None), ("Add to Queue".to_string(), "Edit Album…".to_string()));
}

fn numbered(id: i64) -> Track {
    let mut t = geogaddi_track();
    t.id = TrackId::new(id);
    t
}

#[test]
fn a_row_among_several_selected_batches_them_in_row_order() {
    let tracks = vec![numbered(1), numbered(2), numbered(3), numbered(4)];
    let batch = row_batch(&[3, 0, 2], 2, &tracks).unwrap();
    let ids: Vec<i64> = batch.iter().map(|t| t.id.value()).collect();
    assert_eq!(ids, vec![1, 3, 4]);
}

#[test]
fn a_row_outside_the_selection_or_alone_has_no_batch() {
    let tracks = vec![numbered(1), numbered(2), numbered(3)];
    assert!(row_batch(&[0, 2], 1, &tracks).is_none());
    assert!(row_batch(&[1], 1, &tracks).is_none());
    assert!(row_batch(&[], 0, &tracks).is_none());
    let past_end = row_batch(&[1, 7], 1, &tracks).unwrap();
    assert_eq!(past_end.len(), 1);
}
