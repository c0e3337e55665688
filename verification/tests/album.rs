use musicplayer_rs::album::AlbumSort;
use musicplayer_rs::album::AlbumSortField;
use musicplayer_rs::album::SortDirection;

#[test]
fn default_sort_orders_by_album_artist_ascending() {
    assert_eq!(
        AlbumSort::default().order_by_clause(),
        "ORDER BY album_artist ASC, album ASC"
    );
}

#[test]
fn year_descending_orders_by_year_then_tie_breaks() {
    let sort = AlbumSort::new(AlbumSortField::Year, SortDirection::Descending);
    assert_eq!(
        sort.order_by_clause(),
        "ORDER BY album_year DESC, album_artist ASC, album ASC"
    );
}

#[test]
fn genre_ascending_orders_by_genre_then_tie_breaks() {
    let sort = AlbumSort::new(AlbumSortField::Genre, SortDirection::Ascending);
    assert_eq!(
        sort.order_by_clause(),
        "ORDER BY album_genre ASC, album_artist ASC, album ASC"
    );
}

#[test]
fn album_field_drops_itself_from_tie_breaks() {
    let sort = AlbumSort::new(AlbumSortField::Album, SortDirection::Ascending);
    assert_eq!(sort.order_by_clause(), "ORDER BY album ASC, album_artist ASC");
}

#[test]
fn sort_field_key_round_trips() {
    for field in [
        AlbumSortField::AlbumArtist,
        AlbumSortField::Year,
        AlbumSortField::Genre,
        AlbumSortField::Album,
    ] {
        assert_eq!(AlbumSortField::from_key(field.as_key()), Some(field));
    }
}

#[test]
fn sort_direction_key_round_trips() {
    assert_eq!(
        SortDirection::from_key(SortDirection::Ascending.as_key()),
        Some(SortDirection::Ascending)
    );
    assert_eq!(
        SortDirection::from_key(SortDirection::Descending.as_key()),
        Some(SortDirection::Descending)
    );
}

#[test]
fn sort_field_from_unknown_key_is_none() {
    assert_eq!(AlbumSortField::from_key("bitrate"), None);
}

#[test]
fn album_artist_descending_keeps_only_the_album_tie_break() {
    let sort = AlbumSort::new(AlbumSortField::AlbumArtist, SortDirection::Descending);
    assert_eq!(sort.order_by_clause(), "ORDER BY album_artist DESC, album ASC");
}

#[test]
fn sort_direction_from_unknown_key_is_none() {
    assert_eq!(SortDirection::from_key("ASC"), None);
    assert_eq!(SortDirection::from_key(""), None);
}
