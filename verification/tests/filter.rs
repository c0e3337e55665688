use musicplayer_rs::filter::FilterField;
use musicplayer_rs::filter::LibraryFilter;
use musicplayer_rs::track::Artist;
use musicplayer_rs::track::Composer;
use musicplayer_rs::track::Genre;
use musicplayer_rs::track::Year;

#[test]
fn filter_field_from_key_round_trips_every_field() {
    for field in FilterField::all() {
        assert_eq!(FilterField::from_key(field.as_key()), Some(field));
    }
}

#[test]
fn filter_field_index_matches_position_in_all() {
    for (position, field) in FilterField::all().into_iter().enumerate() {
        assert_eq!(field.index(), position);
    }
}

#[test]
fn filter_field_from_key_returns_none_for_an_unknown_key() {
    assert_eq!(FilterField::from_key("duration"), None);
}

#[test]
fn to_filter_genre_builds_by_genre() {
    assert_eq!(
        FilterField::Genre.to_filter("Ambient"),
        LibraryFilter::ByGenre(Genre::new("Ambient"))
    );
}

#[test]
fn to_filter_album_artist_builds_by_album_artist() {
    assert_eq!(
        FilterField::AlbumArtist.to_filter("Various Artists"),
        LibraryFilter::ByAlbumArtist(Artist::new("Various Artists"))
    );
}

#[test]
fn to_filter_artist_builds_by_artist() {
    assert_eq!(
        FilterField::Artist.to_filter("Boards of Canada"),
        LibraryFilter::ByArtist(Artist::new("Boards of Canada"))
    );
}

#[test]
fn to_filter_year_builds_by_year() {
    assert_eq!(
        FilterField::Year.to_filter("1998"),
        LibraryFilter::ByYear(Year::new(1998))
    );
}

#[test]
fn to_filter_composer_builds_by_composer() {
    assert_eq!(
        FilterField::Composer.to_filter("Erik Satie"),
        LibraryFilter::ByComposer(Composer::new("Erik Satie"))
    );
}

#[test]
fn to_filter_year_falls_back_to_unknown_for_non_numbers() {
    assert_eq!(
        FilterField::Year.to_filter("late nineties"),
        LibraryFilter::ByYear(Year::new(0))
    );
    assert_eq!(
        FilterField::Year.to_filter("70000"),
        LibraryFilter::ByYear(Year::new(0))
    );
}

#[test]
fn filter_field_labels_and_count() {
    assert_eq!(FilterField::COUNT, FilterField::all().len());
    assert_eq!(FilterField::AlbumArtist.label(), "Album Artist");
    assert_eq!(FilterField::Composer.label(), "Composer");
}

#[test]
fn library_filter_clone_is_equal() {
    let filter = LibraryFilter::ByArtist(Artist::new("Aphex Twin"));
    assert_eq!(filter.clone(), filter);
    assert_ne!(filter, LibraryFilter::ByAlbumArtist(Artist::new("Aphex Twin")));
}
