//! Album summaries for the grid, and the order the grid lists them in.
use vstd::prelude::*;

use crate::text::push_str;
use crate::text::same_text;
use crate::track::AlbumTitle;
use crate::track::Artist;
use crate::track::Genre;
use crate::track::Year;

verus! {

broadcast use vstd::string::group_string_axioms;

/// One album's worth of grid metadata: its title, its (primary) artist,
/// genre, release year, and whether any track in the album carries embedded
/// cover art.
#[derive(Debug, PartialEq, Eq)]
pub struct AlbumSummary {
    pub album: AlbumTitle,
    pub artist: Artist,
    pub genre: Genre,
    pub year: Year,
    pub has_art: bool,
}

impl Clone for AlbumSummary {
    fn clone(&self) -> (r: Self)
        ensures
            r == *self,
    {
        AlbumSummary {
            album: self.album.clone(),
            artist: self.artist.clone(),
            genre: self.genre.clone(),
            year: self.year,
            has_art: self.has_art,
        }
    }
}

/// The field the album grid is ordered by.
#[derive(Debug, Clone, Copy, PartialEq, Eq, Structural)]
pub enum AlbumSortField {
    AlbumArtist,
    Year,
    Genre,
    Album,
}

/// The grouped-query column alias `f` sorts on.
pub open spec fn sort_column(f: AlbumSortField) -> Seq<char> {
    match f {
        AlbumSortField::AlbumArtist => "album_artist"@,
        AlbumSortField::Year => "album_year"@,
        AlbumSortField::Genre => "album_genre"@,
        AlbumSortField::Album => "album"@,
    }
}

/// The settings key of `f`.
pub open spec fn sort_field_key(f: AlbumSortField) -> Seq<char> {
    match f {
        AlbumSortField::AlbumArtist => "album_artist"@,
        AlbumSortField::Year => "year"@,
        AlbumSortField::Genre => "genre"@,
        AlbumSortField::Album => "album"@,
    }
}

/// The sort field whose settings key is `key`, if any.
pub open spec fn sort_field_of_key(key: Seq<char>) -> Option<AlbumSortField> {
    if key == "album_artist"@ {
        Some(AlbumSortField::AlbumArtist)
    } else if key == "year"@ {
        Some(AlbumSortField::Year)
    } else if key == "genre"@ {
        Some(AlbumSortField::Genre)
    } else if key == "album"@ {
        Some(AlbumSortField::Album)
    } else {
        None
    }
}

impl AlbumSortField {
    /// The grouped-query column alias this field sorts on.
    fn column(self) -> (r: &'static str)
        ensures
            r@ == sort_column(self),
    {
        match self {
            AlbumSortField::AlbumArtist => "album_artist",
            AlbumSortField::Year => "album_year",
            AlbumSortField::Genre => "album_genre",
            AlbumSortField::Album => "album",
        }
    }

    /// The stable string persisted in settings.
    pub fn as_key(self) -> (r: &'static str)
        ensures
            r@ == sort_field_key(self),
    {
        match self {
            AlbumSortField::AlbumArtist => "album_artist",
            AlbumSortField::Year => "year",
            AlbumSortField::Genre => "genre",
            AlbumSortField::Album => "album",
        }
    }

    /// Parses a persisted key, or `None` when unknown.
    pub fn from_key(key: &str) -> (r: Option<Self>)
        ensures
            r == sort_field_of_key(key@),
    {
        if same_text(key, "album_artist") {
            Some(AlbumSortField::AlbumArtist)
        } else if same_text(key, "year") {
            Some(AlbumSortField::Year)
        } else if same_text(key, "genre") {
            Some(AlbumSortField::Genre)
        } else if same_text(key, "album") {
            Some(AlbumSortField::Album)
        } else {
            None
        }
    }
}

/// The direction an ordering runs in.
#[derive(Debug, Clone, Copy, PartialEq, Eq, Structural)]
pub enum SortDirection {
    Ascending,
    Descending,
}

/// The SQL keyword of `d`.
pub open spec fn direction_sql(d: SortDirection) -> Seq<char> {
    match d {
        SortDirection::Ascending => "ASC"@,
        SortDirection::Descending => "DESC"@,
    }
}

/// The settings key of `d`.
pub open spec fn direction_key(d: SortDirection) -> Seq<char> {
    match d {
        SortDirection::Ascending => "asc"@,
        SortDirection::Descending => "desc"@,
    }
}

/// The direction whose settings key is `key`, if any.
pub open spec fn direction_of_key(key: Seq<char>) -> Option<SortDirection> {
    if key == "asc"@ {
        Some(SortDirection::Ascending)
    } else if key == "desc"@ {
        Some(SortDirection::Descending)
    } else {
        None
    }
}

impl SortDirection {
    fn sql(self) -> (r: &'static str)
        ensures
            r@ == direction_sql(self),
    {
        match self {
            SortDirection::Ascending => "ASC",
            SortDirection::Descending => "DESC",
        }
    }

    pub fn as_key(self) -> (r: &'static str)
        ensures
            r@ == direction_key(self),
    {
        match self {
            SortDirection::Ascending => "asc",
            SortDirection::Descending => "desc",
        }
    }

    pub fn from_key(key: &str) -> (r: Option<Self>)
        ensures
            r == direction_of_key(key@),
    {
        if same_text(key, "asc") {
            Some(SortDirection::Ascending)
        } else if same_text(key, "desc") {
            Some(SortDirection::Descending)
        } else {
            None
        }
    }
}

/// How the album grid is ordered: a field and a direction.
#[derive(Debug, Clone, Copy, PartialEq, Eq, Structural)]
pub struct AlbumSort {
    pub field: AlbumSortField,
    pub direction: SortDirection,
}

/// The `ORDER BY` clause for `s`: its column and direction, then album
/// artist and album ascending as tie-breakers, each left out when it is the
/// sort column itself.
pub open spec fn order_by(s: AlbumSort) -> Seq<char> {
    "ORDER BY "@ + sort_column(s.field) + " "@ + direction_sql(s.direction) + (if s.field
        == AlbumSortField::AlbumArtist {
        Seq::empty()
    } else {
        ", album_artist ASC"@
    }) + (if s.field == AlbumSortField::Album {
        Seq::empty()
    } else {
        ", album ASC"@
    })
}

impl AlbumSort {
    pub fn new(field: AlbumSortField, direction: SortDirection) -> (r: Self)
        ensures
            r.field == field,
            r.direction == direction,
    {
        AlbumSort { field, direction }
    }

    /// The SQL `ORDER BY` clause for the grouped album-summary query, with
    /// album artist and album appended as stable tie-breakers. The field names
    /// come from a fixed set, never user input, so this cannot inject.
    pub fn order_by_clause(&self) -> (r: String)
        ensures
            r@ == order_by(*self),
    {
        let mut r = String::new();
        push_str(&mut r, "ORDER BY ");
        push_str(&mut r, self.field.column());
        push_str(&mut r, " ");
        push_str(&mut r, self.direction.sql());
        let ghost head = r@;
        match self.field {
            AlbumSortField::AlbumArtist => {},
            _ => push_str(&mut r, ", album_artist ASC"),
        }
        let ghost mid = r@;
        match self.field {
            AlbumSortField::Album => {},
            _ => push_str(&mut r, ", album ASC"),
        }
        assert(r@ == order_by(*self));
        r
    }
}

impl Default for AlbumSort {
    /// Album artist ascending: the grid order before sorting was configurable.
    fn default() -> (r: Self)
        ensures
            r.field == AlbumSortField::AlbumArtist,
            r.direction == SortDirection::Ascending,
    {
        AlbumSort::new(AlbumSortField::AlbumArtist, SortDirection::Ascending)
    }
}

/// Every sort field's key reads back as that field.
pub proof fn law_sort_field_key_round_trip(f: AlbumSortField)
    ensures
        sort_field_of_key(sort_field_key(f)) == Some(f),
{
    reveal_strlit("album_artist");
    reveal_strlit("year");
    reveal_strlit("genre");
    reveal_strlit("album");
    assert("year"@.len() != "album_artist"@.len());
    assert("genre"@.len() != "album_artist"@.len());
    assert("genre"@.len() != "year"@.len());
    assert("album"@.len() != "album_artist"@.len());
    assert("album"@.len() != "year"@.len());
    assert("album"@[0] != "genre"@[0]);
}

/// Every direction's key reads back as that direction.
pub proof fn law_direction_key_round_trip(d: SortDirection)
    ensures
        direction_of_key(direction_key(d)) == Some(d),
{
    reveal_strlit("asc");
    reveal_strlit("desc");
    assert("desc"@.len() != "asc"@.len());
}

/// The SQL keyword of a sort direction.
pub open spec fn direction_keyword(d: SortDirection) -> Seq<char> {
    if d == SortDirection::Ascending {
        "ASC"@
    } else {
        "DESC"@
    }
}

/// The album grid's ordering honours the chosen direction for every sort
/// field: the clause begins with the field's column followed by `ASC` for
/// ascending and `DESC` for descending, which ends the primary key (the
/// clause ends there or goes on with `,`), so the two directions of one
/// field never give the same clause.
pub proof fn law_primary_key_carries_the_direction(f: AlbumSortField, d: SortDirection)
    ensures
        ({
            let head = "ORDER BY "@ + sort_column(f) + " "@ + direction_keyword(d);
            let clause = order_by(AlbumSort { field: f, direction: d });
            &&& clause.take(head.len() as int) == head
            &&& clause.len() == head.len() || clause[head.len() as int] == ','
        }),
        order_by(AlbumSort { field: f, direction: SortDirection::Ascending }) != order_by(
            AlbumSort { field: f, direction: SortDirection::Descending },
        ),
{
    reveal_strlit("ORDER BY ");
    reveal_strlit(" ");
    reveal_strlit("ASC");
    reveal_strlit("DESC");
    reveal_strlit("album_artist");
    reveal_strlit("album_year");
    reveal_strlit("album_genre");
    reveal_strlit("album");
    reveal_strlit(", album_artist ASC");
    reveal_strlit(", album ASC");
    let head = "ORDER BY "@ + sort_column(f) + " "@ + direction_keyword(d);
    let clause = order_by(AlbumSort { field: f, direction: d });
    let tail = (if f == AlbumSortField::AlbumArtist {
        Seq::empty()
    } else {
        ", album_artist ASC"@
    }) + (if f == AlbumSortField::Album {
        Seq::empty()
    } else {
        ", album ASC"@
    });
    assert(direction_sql(d) == direction_keyword(d));
    assert(clause =~= head + tail);
    assert(clause.take(head.len() as int) =~= head);
    if tail.len() > 0 {
        assert(clause[head.len() as int] == tail[0]);
        assert(tail[0] == ',');
    }
    let k: nat = 9 + sort_column(f).len() + 1;
    let asc = order_by(AlbumSort { field: f, direction: SortDirection::Ascending });
    let desc = order_by(AlbumSort { field: f, direction: SortDirection::Descending });
    assert(asc[k as int] == 'A');
    assert(desc[k as int] == 'D');
}

} // verus!
