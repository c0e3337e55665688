use musicplayer_rs::edit::settle_save;
use musicplayer_rs::edit::split_at_failure;
use musicplayer_rs::edit::Shared;
use musicplayer_rs::edit::TrackEdit;
use musicplayer_rs::track::AlbumTitle;
use musicplayer_rs::track::Artist;
use musicplayer_rs::track::Composer;
use musicplayer_rs::track::DiscNumber;
use musicplayer_rs::track::Genre;
use musicplayer_rs::track::Title;
use musicplayer_rs::track::Track;
use musicplayer_rs::track::TrackDuration;
use musicplayer_rs::track::TrackId;
use musicplayer_rs::track::TrackNumber;
use musicplayer_rs::track::TrackPath;
use musicplayer_rs::track::Year;

fn roygbiv() -> Track {
    Track {
        id: TrackId::new(1),
        path: TrackPath::new("/music/boc/geogaddi/roygbiv.flac").unwrap(),
        title: Title::new("Roygbiv"),
        artist: Artist::new("Boards of Canada"),
        album_artist: Artist::new("Boards of Canada"),
        album: AlbumTitle::new("Geogaddi"),
        genre: Genre::new("Electronic"),
        composer: Composer::new(""),
        track_number: TrackNumber::new(7),
        disc_number: DiscNumber::new(1),
        year: Year::new(2002),
        duration: TrackDuration::from_secs(193),
    }
}

fn alpha_star() -> Track {
    Track {
        id: TrackId::new(2),
        path: TrackPath::new("/music/boc/geogaddi/alpha_and_omega.flac").unwrap(),
        title: Title::new("Alpha and Omega"),
        track_number: TrackNumber::new(9),
        ..roygbiv()
    }
}

#[test]
fn shared_of_returns_common_when_every_track_agrees() {
    let tracks = vec![roygbiv(), alpha_star()];
    let shared = Shared::of(&tracks, |t| t.album.clone());
    assert_eq!(shared, Shared::Common(AlbumTitle::new("Geogaddi")));
}

#[test]
fn shared_of_returns_mixed_when_a_track_differs() {
    let tracks = vec![roygbiv(), alpha_star()];
    let shared = Shared::of(&tracks, |t| t.title.clone());
    assert_eq!(shared, Shared::Mixed);
}

#[test]
fn shared_of_returns_mixed_for_an_empty_slice() {
    let shared: Shared<AlbumTitle> = Shared::of(&[], |t| t.album.clone());
    assert_eq!(shared, Shared::Mixed);
}

#[test]
fn track_edit_apply_overwrites_only_the_set_fields() {
    let edit = TrackEdit {
        album: Some(AlbumTitle::new("Geogaddi (Remaster)")),
        ..TrackEdit::default()
    };
    let edited = edit.apply(roygbiv());

    assert_eq!(edited.album.as_str(), "Geogaddi (Remaster)");
    assert_eq!(edited.title, roygbiv().title, "untouched field must survive");
    assert_eq!(edited.track_number, roygbiv().track_number);
}

#[test]
fn track_edit_default_leaves_every_field_unchanged() {
    let edited = TrackEdit::default().apply(roygbiv());
    assert_eq!(edited, roygbiv());
}

#[test]
fn affects_art_grouping_is_true_only_for_key_fields() {
    assert!(TrackEdit {
        album: Some(AlbumTitle::new("Geogaddi (Remaster)")),
        ..TrackEdit::default()
    }
    .affects_art_grouping());
    assert!(!TrackEdit {
        genre: Some(Genre::new("Ambient")),
        ..TrackEdit::default()
    }
    .affects_art_grouping());
}

#[test]
fn shared_of_a_single_track_is_its_value() {
    let shared = Shared::of(&[roygbiv()], |t| t.year);
    assert_eq!(shared, Shared::Common(Year::new(2002)));
}

#[test]
fn applying_an_edit_twice_is_applying_it_once() {
    let edit = TrackEdit {
        artist: Some(Artist::new("BoC")),
        year: Some(Year::new(2003)),
        ..TrackEdit::default()
    };
    let once = edit.apply(roygbiv());
    let twice = edit.apply(once.clone());
    assert_eq!(twice, once);
    assert_eq!(once.id, roygbiv().id);
    assert_eq!(once.path, roygbiv().path);
    assert!(edit.affects_art_grouping());
    assert_eq!(edit.clone().apply(roygbiv()), once);
}

#[test]
fn new_cover_art_or_a_grouping_edit_affects_the_art() {
    let genre_only = TrackEdit {
        genre: Some(Genre::new("Ambient")),
        ..TrackEdit::default()
    };
    assert!(!genre_only.save_affects_art(false));
    assert!(genre_only.save_affects_art(true));
    let artist = TrackEdit {
        artist: Some(Artist::new("BoC")),
        ..TrackEdit::default()
    };
    assert!(artist.save_affects_art(false));
}

#[test]
fn writing_stops_at_the_first_failure() {
    let outcomes: Vec<Result<u32, &str>> = vec![Ok(1), Ok(2), Err("disk full"), Ok(4), Err("late")];
    assert_eq!(split_at_failure(outcomes), (vec![1, 2], Some("disk full")));
    let clean: Vec<Result<u32, &str>> = vec![Ok(1), Ok(2)];
    assert_eq!(split_at_failure(clean), (vec![1, 2], None));
}

#[test]
fn a_failed_commit_saves_nothing_and_keeps_the_write_error() {
    let saved = settle_save::<&str>(Some("write"), Ok(vec![roygbiv()]));
    assert_eq!(saved, (vec![roygbiv()], Some("write")));
    assert_eq!(settle_save::<&str>(Some("write"), Err("commit")), (Vec::new(), Some("write")));
    assert_eq!(settle_save::<&str>(None, Err("commit")), (Vec::new(), Some("commit")));
    assert_eq!(settle_save::<&str>(None, Ok(Vec::new())), (Vec::new(), None));
}
