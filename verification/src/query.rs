//! Which stored tracks and albums a library filter selects, as the clauses
//! and parameter of the library's queries.
use vstd::prelude::*;

use crate::filter::FilterView;
use crate::filter::LibraryFilter;
use crate::text::owned;

verus! {

broadcast use vstd::string::group_string_axioms;

/// The value bound to a query's `?1` placeholder.
#[derive(Debug, PartialEq, Eq)]
pub enum QueryParam {
    Text(String),
    Integer(i64),
}

/// A query parameter as contracts see it.
pub enum ParamView {
    Text(Seq<char>),
    Integer(i64),
}

impl View for QueryParam {
    type V = ParamView;

    open spec fn view(&self) -> ParamView {
        match self {
            QueryParam::Text(s) => ParamView::Text(s@),
            QueryParam::Integer(n) => ParamView::Integer(*n),
        }
    }
}

/// A query's filtering (and, for tracks, ordering) clause and the value of
/// its one placeholder, if it has one.
#[derive(Debug)]
pub struct FilterClause {
    pub clause: &'static str,
    pub param: Option<QueryParam>,
}

/// The parameter a filter binds: its value, if it has one.
pub open spec fn filter_param(f: FilterView) -> Option<ParamView> {
    match f {
        FilterView::All => None,
        FilterView::ByGenre(s) => Some(ParamView::Text(s)),
        FilterView::ByArtist(s) => Some(ParamView::Text(s)),
        FilterView::ByAlbumArtist(s) => Some(ParamView::Text(s)),
        FilterView::ByAlbum(s) => Some(ParamView::Text(s)),
        FilterView::ByYear(y) => Some(ParamView::Integer(y as i64)),
        FilterView::ByComposer(s) => Some(ParamView::Text(s)),
    }
}

/// The condition a filter puts on stored tracks, as a `WHERE` clause
/// (empty for every track). A track's album artist is its album-artist tag,
/// or its artist when that tag is absent.
pub open spec fn where_text(f: FilterView) -> Seq<char> {
    match f {
        FilterView::All => Seq::empty(),
        FilterView::ByGenre(_) => "WHERE genre = ?1"@,
        FilterView::ByArtist(_) => "WHERE artist = ?1"@,
        FilterView::ByAlbumArtist(_) => "WHERE COALESCE(album_artist, artist) = ?1"@,
        FilterView::ByAlbum(_) => "WHERE album = ?1"@,
        FilterView::ByYear(_) => "WHERE year = ?1"@,
        FilterView::ByComposer(_) => "WHERE composer = ?1"@,
    }
}

/// The condition and order of a filtered track list: every track by
/// artist, album and track number; an artist's tracks by album and track
/// number; an album's (or an album artist's) tracks by disc and track
/// number.
pub open spec fn track_list_text(f: FilterView) -> Seq<char> {
    match f {
        FilterView::All => "ORDER BY artist, album, track_number"@,
        FilterView::ByGenre(_) => "WHERE genre = ?1 ORDER BY artist, album, track_number"@,
        FilterView::ByArtist(_) => "WHERE artist = ?1 ORDER BY album, track_number"@,
        FilterView::ByAlbumArtist(_) => "WHERE COALESCE(album_artist, artist) = ?1 ORDER BY album, disc_number, track_number"@,
        FilterView::ByAlbum(_) => "WHERE album = ?1 ORDER BY disc_number, track_number"@,
        FilterView::ByYear(_) => "WHERE year = ?1 ORDER BY artist, album, track_number"@,
        FilterView::ByComposer(_) => "WHERE composer = ?1 ORDER BY artist, album, track_number"@,
    }
}

/// The parameter of `filter`.
fn param_of(filter: &LibraryFilter) -> (r: Option<QueryParam>)
    ensures
        match r {
            Some(p) => filter_param(filter@) == Some(p@),
            None => filter_param(filter@) is None,
        },
{
    match filter {
        LibraryFilter::All => None,
        LibraryFilter::ByGenre(g) => Some(QueryParam::Text(owned(g.as_str()))),
        LibraryFilter::ByArtist(a) => Some(QueryParam::Text(owned(a.as_str()))),
        LibraryFilter::ByAlbumArtist(a) => Some(QueryParam::Text(owned(a.as_str()))),
        LibraryFilter::ByAlbum(a) => Some(QueryParam::Text(owned(a.as_str()))),
        LibraryFilter::ByYear(y) => Some(QueryParam::Integer(y.value() as i64)),
        LibraryFilter::ByComposer(c) => Some(QueryParam::Text(owned(c.as_str()))),
    }
}

/// The condition and order of the track list `filter` selects, with its
/// parameter.
pub fn track_list_clause(filter: &LibraryFilter) -> (r: FilterClause)
    ensures
        r.clause@ == track_list_text(filter@),
        match r.param {
            Some(p) => filter_param(filter@) == Some(p@),
            None => filter_param(filter@) is None,
        },
{
    let clause = match filter {
        LibraryFilter::All => "ORDER BY artist, album, track_number",
        LibraryFilter::ByGenre(_) => "WHERE genre = ?1 ORDER BY artist, album, track_number",
        LibraryFilter::ByArtist(_) => "WHERE artist = ?1 ORDER BY album, track_number",
        LibraryFilter::ByAlbumArtist(_) => "WHERE COALESCE(album_artist, artist) = ?1 ORDER BY album, disc_number, track_number",
        LibraryFilter::ByAlbum(_) => "WHERE album = ?1 ORDER BY disc_number, track_number",
        LibraryFilter::ByYear(_) => "WHERE year = ?1 ORDER BY artist, album, track_number",
        LibraryFilter::ByComposer(_) => "WHERE composer = ?1 ORDER BY artist, album, track_number",
    };
    FilterClause { clause, param: param_of(filter) }
}

/// The condition on the tracks whose albums `filter` selects, with its
/// parameter.
pub fn album_clause(filter: &LibraryFilter) -> (r: FilterClause)
    ensures
        r.clause@ == where_text(filter@),
        match r.param {
            Some(p) => filter_param(filter@) == Some(p@),
            None => filter_param(filter@) is None,
        },
{
    let clause = match filter {
        LibraryFilter::All => "",
        LibraryFilter::ByGenre(_) => "WHERE genre = ?1",
        LibraryFilter::ByArtist(_) => "WHERE artist = ?1",
        LibraryFilter::ByAlbumArtist(_) => "WHERE COALESCE(album_artist, artist) = ?1",
        LibraryFilter::ByAlbum(_) => "WHERE album = ?1",
        LibraryFilter::ByYear(_) => "WHERE year = ?1",
        LibraryFilter::ByComposer(_) => "WHERE composer = ?1",
    };
    proof {
        reveal_strlit("");
    }
    FilterClause { clause, param: param_of(filter) }
}

/// An artist filter lists the tracks whose own artist tag is the artist,
/// compilation tracks included: its condition tests the `artist` column
/// alone, `WHERE artist = ?1`, before its ordering, and it binds the
/// artist's name. The album-artist filter is the one that falls back from
/// the album artist.
pub proof fn law_artist_filter_tests_the_track_artist(name: Seq<char>)
    ensures
        track_list_text(FilterView::ByArtist(name)).take(26) == "WHERE artist = ?1 ORDER BY"@,
        filter_param(FilterView::ByArtist(name)) == Some(ParamView::Text(name)),
        track_list_text(FilterView::ByArtist(name)).take(26) != track_list_text(
            FilterView::ByAlbumArtist(name),
        ).take(26),
{
    reveal_strlit("WHERE artist = ?1 ORDER BY album, track_number");
    reveal_strlit("WHERE artist = ?1 ORDER BY");
    reveal_strlit(
        "WHERE COALESCE(album_artist, artist) = ?1 ORDER BY album, disc_number, track_number",
    );
    assert(track_list_text(FilterView::ByArtist(name)).take(26) =~= "WHERE artist = ?1 ORDER BY"@);
    assert(track_list_text(FilterView::ByAlbumArtist(name)).take(26)[6] == 'C');
    assert(track_list_text(FilterView::ByArtist(name)).take(26)[6] == 'a');
}

} // verus!
