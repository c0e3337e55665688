use musicplayer_rs::rows::art_hash;
use musicplayer_rs::rows::build_album_summary;
use musicplayer_rs::rows::build_track;
use musicplayer_rs::rows::or_empty;
use musicplayer_rs::rows::or_zero;
use musicplayer_rs::rows::order_by_ids;
use musicplayer_rs::rows::track_columns;
use musicplayer_rs::rows::AlbumRow;
use musicplayer_rs::rows::TrackRow;
use musicplayer_rs::track::AlbumTitle;
use musicplayer_rs::track::Artist;
use musicplayer_rs::track::Composer;
use musicplayer_rs::track::DiscNumber;
use musicplayer_rs::track::Genre;
use musicplayer_rs::track::Title;
use musicplayer_rs::track::Track;
use musicplayer_rs::track::TrackDuration;
use musicplayer_rs::track::TrackError;
use musicplayer_rs::track::TrackId;
use musicplayer_rs::track::TrackNumber;
use musicplayer_rs::track::TrackPath;
use musicplayer_rs::track::Year;

fn track(id: i64, title: &str) -> Track {
    Track {
        id: TrackId::new(id),
        path: TrackPath::new(&format!("/music/boc/{id}.flac")).unwrap(),
        title: Title::new(title),
        artist: Artist::new("Boards of Canada"),
        album_artist: Artist::new(""),
        album: AlbumTitle::new("Geogaddi"),
        genre: Genre::new(""),
        composer: Composer::new(""),
        duration: TrackDuration::from_millis(193_456),
        track_number: TrackNumber::new(7),
        disc_number: DiscNumber::new(0),
        year: Year::new(2002),
    }
}

fn row_of(id: i64, t: &Track) -> TrackRow {
    let c = track_columns(t);
    TrackRow {
        id,
        path: c.path,
        title: c.title,
        artist: c.artist,
        album: c.album,
        genre: c.genre,
        duration_ms: Some(c.duration_ms),
        track_number: c.track_number,
        disc_number: c.disc_number,
        year: c.year,
        album_artist: c.album_artist,
        composer: c.composer,
    }
}

#[test]
fn art_hash_is_stable() {
    assert_eq!(art_hash(b""), -3750763034362895579);
    assert_eq!(art_hash(b"geogaddi"), 6552777080131098409);
}

#[test]
fn art_hash_differs_for_different_bytes() {
    assert_ne!(art_hash(b"geogaddi"), art_hash(b"geogadd"));
}

#[test]
fn track_columns_store_unknown_fields_as_null() {
    let t = track(3, "Roygbiv");
    let c = track_columns(&t);
    assert_eq!(c.path, "/music/boc/3.flac");
    assert_eq!(c.title.as_deref(), Some("Roygbiv"));
    assert_eq!(c.album_artist, None);
    assert_eq!(c.genre, None);
    assert_eq!(c.composer, None);
    assert_eq!(c.duration_ms, 193_456);
    assert_eq!(c.track_number, Some(7));
    assert_eq!(c.disc_number, None);
    assert_eq!(c.year, Some(2002));
}

#[test]
fn a_stored_track_reads_back_as_itself() {
    let t = track(3, "Roygbiv");
    let read = build_track(row_of(3, &t)).unwrap();
    assert_eq!(read, t);
}

#[test]
fn null_columns_read_as_unknown_values() {
    let row = TrackRow {
        id: 9,
        path: "/music/untagged.mp3".to_string(),
        title: None,
        artist: None,
        album: None,
        genre: None,
        duration_ms: None,
        track_number: None,
        disc_number: None,
        year: None,
        album_artist: None,
        composer: None,
    };
    let t = build_track(row).unwrap();
    assert_eq!(t.id, TrackId::new(9));
    assert!(t.title.is_unknown());
    assert!(t.artist.is_unknown());
    assert_eq!(t.duration.as_millis(), 0);
    assert!(t.track_number.is_unknown());
    assert!(t.disc_number.is_unknown());
    assert!(t.year.is_unknown());
}

#[test]
fn a_relative_stored_path_is_refused() {
    let row = TrackRow {
        id: 1,
        path: "music/relative.mp3".to_string(),
        title: Some("  Roygbiv ".to_string()),
        artist: None,
        album: None,
        genre: None,
        duration_ms: Some(1),
        track_number: Some(1),
        disc_number: None,
        year: None,
        album_artist: None,
        composer: None,
    };
    assert_eq!(
        build_track(row),
        Err(TrackError::RelativePath("music/relative.mp3".to_string()))
    );
}

#[test]
fn album_rows_read_null_as_unknown() {
    let summary = build_album_summary(AlbumRow {
        album: Some("Geogaddi".to_string()),
        artist: None,
        genre: None,
        year: Some(2002),
        has_art: true,
    });
    assert_eq!(summary.album.as_str(), "Geogaddi");
    assert!(summary.artist.is_unknown());
    assert_eq!(summary.genre.as_str(), "");
    assert_eq!(summary.year.value(), 2002);
    assert!(summary.has_art);
}

#[test]
fn or_empty_and_or_zero_read_null_as_defaults() {
    assert_eq!(or_empty(None), "");
    assert_eq!(or_empty(Some("x".to_string())), "x");
    assert_eq!(or_zero(None), 0);
    assert_eq!(or_zero(Some(-4)), -4);
}

#[test]
fn tracks_by_ids_order_follows_the_ids() {
    let tracks = vec![track(1, "a"), track(2, "b"), track(3, "c")];
    let ids = [TrackId::new(3), TrackId::new(1), TrackId::new(2)];
    let ordered = order_by_ids(&ids, &tracks);
    let got: Vec<i64> = ordered.iter().map(|t| t.id.value()).collect();
    assert_eq!(got, vec![3, 1, 2]);
}

#[test]
fn tracks_missing_from_the_ids_come_last_in_their_order() {
    let tracks = vec![track(1, "a"), track(2, "b"), track(3, "c"), track(4, "d")];
    let ids = [TrackId::new(4), TrackId::new(2)];
    let ordered = order_by_ids(&ids, &tracks);
    let got: Vec<i64> = ordered.iter().map(|t| t.id.value()).collect();
    assert_eq!(got, vec![4, 2, 1, 3]);
}

#[test]
fn a_repeated_id_sorts_by_its_last_position() {
    let tracks = vec![track(1, "a"), track(2, "b")];
    let ids = [TrackId::new(1), TrackId::new(2), TrackId::new(1)];
    let ordered = order_by_ids(&ids, &tracks);
    let got: Vec<i64> = ordered.iter().map(|t| t.id.value()).collect();
    assert_eq!(got, vec![2, 1]);
    assert!(order_by_ids(&[], &[]).is_empty());
}

#[test]
fn ordering_by_ids_keeps_every_track_and_its_duplicates() {
    let tracks = vec![track(5, "e"), track(1, "a"), track(5, "e"), track(9, "z")];
    let ids = [TrackId::new(1), TrackId::new(7), TrackId::new(5)];
    let ordered = order_by_ids(&ids, &tracks);
    let got: Vec<i64> = ordered.iter().map(|t| t.id.value()).collect();
    assert_eq!(got, vec![1, 5, 5, 9]);
    let titles: Vec<&str> = ordered.iter().map(|t| t.title.as_str()).collect();
    assert_eq!(titles, vec!["a", "e", "e", "z"]);
}
