use musicplayer_rs::filter::LibraryFilter;
use musicplayer_rs::query::album_clause;
use musicplayer_rs::query::track_list_clause;
use musicplayer_rs::query::QueryParam;
use musicplayer_rs::track::AlbumTitle;
use musicplayer_rs::track::Artist;
use musicplayer_rs::track::Genre;
use musicplayer_rs::track::Year;

#[test]
fn every_track_is_listed_by_artist_album_and_number() {
    let q = track_list_clause(&LibraryFilter::All);
    assert_eq!(q.clause, "ORDER BY artist, album, track_number");
    assert_eq!(q.param, None);
    assert_eq!(album_clause(&LibraryFilter::All).clause, "");
}

#[test]
fn a_genre_filter_binds_the_genre() {
    let q = track_list_clause(&LibraryFilter::ByGenre(Genre::new(" Ambient ")));
    assert_eq!(q.clause, "WHERE genre = ?1 ORDER BY artist, album, track_number");
    assert_eq!(q.param, Some(QueryParam::Text("Ambient".to_string())));
}

#[test]
fn an_album_is_listed_by_disc_and_track() {
    let q = track_list_clause(&LibraryFilter::ByAlbum(AlbumTitle::new("Geogaddi")));
    assert_eq!(q.clause, "WHERE album = ?1 ORDER BY disc_number, track_number");
    let a = album_clause(&LibraryFilter::ByAlbumArtist(Artist::new("Various Artists")));
    assert_eq!(a.clause, "WHERE COALESCE(album_artist, artist) = ?1");
    assert_eq!(a.param, Some(QueryParam::Text("Various Artists".to_string())));
}

#[test]
fn a_year_filter_binds_an_integer() {
    let q = album_clause(&LibraryFilter::ByYear(Year::new(1998)));
    assert_eq!(q.clause, "WHERE year = ?1");
    assert_eq!(q.param, Some(QueryParam::Integer(1998)));
}
