use musicplayer_rs::album::AlbumSort;
use musicplayer_rs::album::AlbumSortField;
use musicplayer_rs::album::SortDirection;
use musicplayer_rs::settings::album_sort_from;
use musicplayer_rs::settings::cover_size_from;
use musicplayer_rs::settings::current_id_from;
use musicplayer_rs::settings::integer_text_of;
use musicplayer_rs::settings::position_from;
use musicplayer_rs::settings::position_text;
use musicplayer_rs::settings::queue_ids_from;
use musicplayer_rs::settings::queue_text;
use musicplayer_rs::settings::COVER_SIZE_MAX;
use musicplayer_rs::settings::COVER_SIZE_MIN;
use musicplayer_rs::track::TrackId;

#[test]
fn cover_size_defaults_to_min_when_unset() {
    assert_eq!(cover_size_from(None), COVER_SIZE_MIN);
}

#[test]
fn cover_size_round_trips() {
    assert_eq!(cover_size_from(Some(&integer_text_of(350))), 350);
}

#[test]
fn cover_size_clamps_below_min() {
    assert_eq!(cover_size_from(Some(&integer_text_of(10))), COVER_SIZE_MIN);
}

#[test]
fn cover_size_clamps_above_max() {
    assert_eq!(cover_size_from(Some(&integer_text_of(9999))), COVER_SIZE_MAX);
}

#[test]
fn cover_size_ignores_unparseable_text() {
    assert_eq!(cover_size_from(Some("big")), COVER_SIZE_MIN);
    assert_eq!(cover_size_from(Some("-5")), COVER_SIZE_MIN);
    assert_eq!(cover_size_from(Some("+480")), 480);
}

#[test]
fn album_sort_defaults_to_artist_ascending_when_unset() {
    let sort = album_sort_from(None, None);
    assert_eq!(sort.field, AlbumSortField::AlbumArtist);
    assert_eq!(sort.direction, SortDirection::Ascending);
}

#[test]
fn album_sort_round_trips() {
    let sort = AlbumSort::new(AlbumSortField::Year, SortDirection::Descending);
    let loaded = album_sort_from(Some(sort.field.as_key()), Some(sort.direction.as_key()));
    assert_eq!(loaded.field, AlbumSortField::Year);
    assert_eq!(loaded.direction, SortDirection::Descending);
}

#[test]
fn queue_track_ids_returns_empty_when_unset() {
    assert!(queue_ids_from(None).is_empty());
}

#[test]
fn queue_track_ids_round_trips() {
    let ids = vec![TrackId::new(3), TrackId::new(7), TrackId::new(1)];
    let stored = queue_text(&ids);
    assert_eq!(stored, "3,7,1");
    assert_eq!(queue_ids_from(Some(&stored)), ids);
}

#[test]
fn queue_track_ids_skip_fields_that_are_not_ids() {
    let ids = queue_ids_from(Some("4,,x,-2, 5,9"));
    assert_eq!(ids, vec![TrackId::new(4), TrackId::new(-2), TrackId::new(9)]);
    assert!(queue_ids_from(Some("")).is_empty());
    assert_eq!(queue_text(&[]), "");
}

#[test]
fn queue_current_id_returns_none_when_unset() {
    assert!(current_id_from(None).is_none());
}

#[test]
fn queue_current_id_round_trips() {
    assert_eq!(current_id_from(Some(&integer_text_of(42))), Some(42));
    assert_eq!(current_id_from(Some(&integer_text_of(i64::MIN))), Some(i64::MIN));
}

#[test]
fn queue_position_millis_defaults_to_zero_when_unset() {
    assert_eq!(position_from(None), 0);
}

#[test]
fn queue_position_millis_round_trips() {
    assert_eq!(position_from(Some(&position_text(90_000))), 90_000);
    assert_eq!(position_from(Some("soon")), 0);
}
