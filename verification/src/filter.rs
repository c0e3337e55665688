//! The sidebar's filters: which tracks and albums the library views show.
use vstd::prelude::*;

use crate::text::parse_int;
use crate::text::parse_u16;
use crate::text::same_text;
use crate::text::trim;
use crate::track::AlbumTitle;
use crate::track::Artist;
use crate::track::Composer;
use crate::track::Genre;
use crate::track::Year;

verus! {

broadcast use vstd::string::group_string_axioms;

/// The active track-list and album-grid filter, driven by the sidebar
/// selection.
#[derive(Debug, PartialEq, Eq)]
pub enum LibraryFilter {
    All,
    ByGenre(Genre),
    ByArtist(Artist),
    ByAlbumArtist(Artist),
    ByAlbum(AlbumTitle),
    ByYear(Year),
    ByComposer(Composer),
}

/// A filter as contracts see it: the variant and the value it holds.
pub enum FilterView {
    All,
    ByGenre(Seq<char>),
    ByArtist(Seq<char>),
    ByAlbumArtist(Seq<char>),
    ByAlbum(Seq<char>),
    ByYear(u16),
    ByComposer(Seq<char>),
}

impl View for LibraryFilter {
    type V = FilterView;

    open spec fn view(&self) -> FilterView {
        match self {
            LibraryFilter::All => FilterView::All,
            LibraryFilter::ByGenre(g) => FilterView::ByGenre(g@),
            LibraryFilter::ByArtist(a) => FilterView::ByArtist(a@),
            LibraryFilter::ByAlbumArtist(a) => FilterView::ByAlbumArtist(a@),
            LibraryFilter::ByAlbum(a) => FilterView::ByAlbum(a@),
            LibraryFilter::ByYear(y) => FilterView::ByYear(y@),
            LibraryFilter::ByComposer(c) => FilterView::ByComposer(c@),
        }
    }
}

impl Clone for LibraryFilter {
    fn clone(&self) -> (r: Self)
        ensures
            r == *self,
    {
        match self {
            LibraryFilter::All => LibraryFilter::All,
            LibraryFilter::ByGenre(g) => LibraryFilter::ByGenre(g.clone()),
            LibraryFilter::ByArtist(a) => LibraryFilter::ByArtist(a.clone()),
            LibraryFilter::ByAlbumArtist(a) => LibraryFilter::ByAlbumArtist(a.clone()),
            LibraryFilter::ByAlbum(a) => LibraryFilter::ByAlbum(a.clone()),
            LibraryFilter::ByYear(y) => LibraryFilter::ByYear(*y),
            LibraryFilter::ByComposer(c) => LibraryFilter::ByComposer(c.clone()),
        }
    }
}

/// A track field the sidebar can browse as a filter category. A deliberate
/// subset of every track field — only the ones meaningful to browse as a
/// distinct-values list (unlike, say, `Title` or `Duration`).
#[derive(Debug, Clone, Copy, PartialEq, Eq, Structural, Hash)]
pub enum FilterField {
    Genre,
    AlbumArtist,
    Artist,
    Year,
    Composer,
}

/// Every filterable field, in the sidebar's canonical section order.
pub open spec fn all_filter_fields() -> Seq<FilterField> {
    seq![
        FilterField::Genre,
        FilterField::AlbumArtist,
        FilterField::Artist,
        FilterField::Year,
        FilterField::Composer,
    ]
}

/// The position of `f` in `all_filter_fields()`.
pub open spec fn filter_index(f: FilterField) -> nat {
    match f {
        FilterField::Genre => 0,
        FilterField::AlbumArtist => 1,
        FilterField::Artist => 2,
        FilterField::Year => 3,
        FilterField::Composer => 4,
    }
}

/// The sidebar label of `f`.
pub open spec fn filter_label(f: FilterField) -> Seq<char> {
    match f {
        FilterField::Genre => "Genre"@,
        FilterField::AlbumArtist => "Album Artist"@,
        FilterField::Artist => "Artist"@,
        FilterField::Year => "Year"@,
        FilterField::Composer => "Composer"@,
    }
}

/// The settings key of `f`.
pub open spec fn filter_key(f: FilterField) -> Seq<char> {
    match f {
        FilterField::Genre => "genre"@,
        FilterField::AlbumArtist => "album_artist"@,
        FilterField::Artist => "artist"@,
        FilterField::Year => "year"@,
        FilterField::Composer => "composer"@,
    }
}

/// The field whose settings key is `key`, if any.
pub open spec fn filter_field_of_key(key: Seq<char>) -> Option<FilterField> {
    if key == "genre"@ {
        Some(FilterField::Genre)
    } else if key == "album_artist"@ {
        Some(FilterField::AlbumArtist)
    } else if key == "artist"@ {
        Some(FilterField::Artist)
    } else if key == "year"@ {
        Some(FilterField::Year)
    } else if key == "composer"@ {
        Some(FilterField::Composer)
    } else {
        None
    }
}

/// The year a sidebar row's text names: its decimal value when it parses as
/// a `u16`, else 0 (unknown).
pub open spec fn year_of_text(value: Seq<char>) -> u16 {
    match parse_int(value, false, 0, u16::MAX as int) {
        Some(y) => y as u16,
        None => 0,
    }
}

/// The filter a selected sidebar row of field `f` with text `value` stands
/// for. Text values are trimmed as the tag types trim them.
pub open spec fn filter_for(f: FilterField, value: Seq<char>) -> FilterView {
    match f {
        FilterField::Genre => FilterView::ByGenre(trim(value)),
        FilterField::AlbumArtist => FilterView::ByAlbumArtist(trim(value)),
        FilterField::Artist => FilterView::ByArtist(trim(value)),
        FilterField::Year => FilterView::ByYear(year_of_text(value)),
        FilterField::Composer => FilterView::ByComposer(trim(value)),
    }
}

impl FilterField {
    /// How many filterable fields exist — the length of [`FilterField::all`].
    pub const COUNT: usize = 5;

    /// Every filterable field, in the sidebar's canonical section order.
    pub fn all() -> (r: [FilterField; 5])
        ensures
            r@ == all_filter_fields(),
    {
        let r = [
            FilterField::Genre,
            FilterField::AlbumArtist,
            FilterField::Artist,
            FilterField::Year,
            FilterField::Composer,
        ];
        assert(r@ =~= all_filter_fields());
        r
    }

    /// This field's position in [`FilterField::all`] — lets callers key
    /// per-field array storage with the exhaustiveness of a match.
    pub fn index(self) -> (r: usize)
        ensures
            r == filter_index(self),
    {
        match self {
            FilterField::Genre => 0,
            FilterField::AlbumArtist => 1,
            FilterField::Artist => 2,
            FilterField::Year => 3,
            FilterField::Composer => 4,
        }
    }

    /// The label shown for this field in the sidebar's filter picker and as
    /// its section header.
    pub fn label(self) -> (r: &'static str)
        ensures
            r@ == filter_label(self),
    {
        match self {
            FilterField::Genre => "Genre",
            FilterField::AlbumArtist => "Album Artist",
            FilterField::Artist => "Artist",
            FilterField::Year => "Year",
            FilterField::Composer => "Composer",
        }
    }

    /// The name persisted as a settings key.
    pub fn as_key(self) -> (r: &'static str)
        ensures
            r@ == filter_key(self),
    {
        match self {
            FilterField::Genre => "genre",
            FilterField::AlbumArtist => "album_artist",
            FilterField::Artist => "artist",
            FilterField::Year => "year",
            FilterField::Composer => "composer",
        }
    }

    /// Parses a persisted settings key, or `None` when it names no known
    /// field.
    pub fn from_key(key: &str) -> (r: Option<Self>)
        ensures
            r == filter_field_of_key(key@),
    {
        if same_text(key, "genre") {
            Some(FilterField::Genre)
        } else if same_text(key, "album_artist") {
            Some(FilterField::AlbumArtist)
        } else if same_text(key, "artist") {
            Some(FilterField::Artist)
        } else if same_text(key, "year") {
            Some(FilterField::Year)
        } else if same_text(key, "composer") {
            Some(FilterField::Composer)
        } else {
            None
        }
    }

    /// Turns a selected sidebar row's display value back into the
    /// corresponding `LibraryFilter`. A `Year` row whose text is not a
    /// number falls back to the unknown year, 0.
    pub fn to_filter(self, value: &str) -> (r: LibraryFilter)
        ensures
            r@ == filter_for(self, value@),
    {
        match self {
            FilterField::Genre => LibraryFilter::ByGenre(Genre::new(value)),
            FilterField::AlbumArtist => LibraryFilter::ByAlbumArtist(Artist::new(value)),
            FilterField::Artist => LibraryFilter::ByArtist(Artist::new(value)),
            FilterField::Year => {
                let year: u16 = match parse_u16(value) {
                    Some(y) => y,
                    None => 0,
                };
                LibraryFilter::ByYear(Year::new(year))
            },
            FilterField::Composer => LibraryFilter::ByComposer(Composer::new(value)),
        }
    }
}

/// Every field's position in `all_filter_fields()` is its index.
pub proof fn law_index_is_position(f: FilterField)
    ensures
        filter_index(f) < all_filter_fields().len(),
        all_filter_fields()[filter_index(f) as int] == f,
{
}

/// Every field's settings key reads back as that field.
pub proof fn law_filter_key_round_trip(f: FilterField)
    ensures
        filter_field_of_key(filter_key(f)) == Some(f),
{
    reveal_strlit("genre");
    reveal_strlit("album_artist");
    reveal_strlit("artist");
    reveal_strlit("year");
    reveal_strlit("composer");
    assert("album_artist"@.len() != "genre"@.len());
    assert("artist"@.len() != "genre"@.len());
    assert("artist"@.len() != "album_artist"@.len());
    assert("year"@.len() != "genre"@.len());
    assert("year"@.len() != "album_artist"@.len());
    assert("year"@.len() != "artist"@.len());
    assert("composer"@.len() != "genre"@.len());
    assert("composer"@.len() != "album_artist"@.len());
    assert("composer"@.len() != "artist"@.len());
    assert("composer"@.len() != "year"@.len());
}

} // verus!
