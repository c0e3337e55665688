use musicplayer_rs::track::Artist;
use musicplayer_rs::track::Composer;
use musicplayer_rs::track::Title;
use musicplayer_rs::track::TrackDuration;
use musicplayer_rs::track::TrackError;
use musicplayer_rs::track::TrackId;
use musicplayer_rs::track::TrackNumber;
use musicplayer_rs::track::TrackPath;
use musicplayer_rs::track::Year;

#[test]
fn title_new_trims_surrounding_whitespace() {
    assert_eq!(Title::new("  Geogaddi  ").as_str(), "Geogaddi");
}

#[test]
fn title_new_empty_string_is_unknown() {
    assert!(Title::new("").is_unknown());
}

#[test]
fn title_new_whitespace_only_is_unknown() {
    assert!(Title::new("   ").is_unknown());
}

#[test]
fn artist_new_trims_surrounding_whitespace() {
    assert_eq!(
        Artist::new("  Boards of Canada  ").as_str(),
        "Boards of Canada"
    );
}

#[test]
fn artist_new_empty_string_is_unknown() {
    assert!(Artist::new("").is_unknown());
}

#[test]
fn artist_is_unknown_returns_false_for_known_artist() {
    assert!(!Artist::new("Boards of Canada").is_unknown());
}

#[test]
fn composer_new_trims_surrounding_whitespace() {
    assert_eq!(Composer::new("  Wendy Carlos  ").as_str(), "Wendy Carlos");
}

#[test]
fn composer_new_empty_string_is_unknown() {
    assert!(Composer::new("").is_unknown());
}

#[test]
fn composer_is_unknown_returns_false_for_known_composer() {
    assert!(!Composer::new("Wendy Carlos").is_unknown());
}

#[test]
fn track_path_new_accepts_absolute_path() {
    let path = TrackPath::new("/music/geogaddi/track01.flac").unwrap();
    assert_eq!(path.as_path(), "/music/geogaddi/track01.flac");
}

#[test]
fn track_path_new_rejects_relative_path() {
    assert!(matches!(
        TrackPath::new("music/geogaddi/track01.flac"),
        Err(TrackError::RelativePath(_))
    ));
}

#[test]
fn track_duration_from_secs_round_trips() {
    assert_eq!(TrackDuration::from_secs(243).as_secs(), 243);
}

#[test]
fn track_duration_ordering_reflects_length() {
    assert!(TrackDuration::from_secs(120) < TrackDuration::from_secs(360));
}

#[test]
fn track_number_zero_is_unknown() {
    assert!(TrackNumber::new(0).is_unknown());
}

#[test]
fn track_number_nonzero_is_known() {
    assert!(!TrackNumber::new(7).is_unknown());
}

#[test]
fn year_zero_is_unknown() {
    assert!(Year::new(0).is_unknown());
}

#[test]
fn year_nonzero_is_known() {
    assert!(!Year::new(2002).is_unknown());
}

#[test]
fn track_id_value_round_trips() {
    assert_eq!(TrackId::new(42).value(), 42);
}

#[test]
fn track_duration_keeps_milliseconds() {
    let d = TrackDuration::from_millis(133_250);
    assert_eq!(d.as_secs(), 133);
    assert_eq!(d.as_millis(), 133_250);
    assert_eq!(d.total_millis(), 133_250);
    assert_eq!(d.as_duration(), std::time::Duration::from_millis(133_250));
}

#[test]
fn track_duration_orders_against_by_length() {
    let short = TrackDuration::from_millis(1_500);
    let long = TrackDuration::from_secs(2);
    assert_eq!(short.order_against(long), -1);
    assert_eq!(long.order_against(short), 1);
    assert_eq!(short.order_against(short), 0);
}

#[test]
fn tag_values_compare_by_their_text() {
    assert_eq!(Title::new(" Roygbiv "), Title::new("Roygbiv"));
    assert_ne!(Artist::new("Aphex Twin"), Artist::new("Boards of Canada"));
    assert!(TrackPath::new("/a/b.flac").unwrap() == TrackPath::new("/a/b.flac").unwrap());
}

#[test]
fn title_new_trims_unicode_white_space() {
    assert_eq!(Title::new("\u{3000}Music Is Math\u{a0}").as_str(), "Music Is Math");
}
