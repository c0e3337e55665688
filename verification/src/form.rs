//! The metadata editor's form: what each field shows for a group of tracks,
//! and the edit its fields describe once the user saves.
use vstd::prelude::*;

use crate::edit::extracted;
use crate::edit::shared_of;
use crate::edit::Shared;
use crate::edit::TrackEdit;
use crate::text::decimal;
use crate::text::decimal_string;
use crate::text::owned;
use crate::text::parse_int;
use crate::text::parse_u32;
use crate::text::trim;
use crate::text::trimmed;
use crate::track::AlbumTitle;
use crate::track::Artist;
use crate::track::Composer;
use crate::track::DiscNumber;
use crate::track::Genre;
use crate::track::Title;
use crate::track::Track;
use crate::track::TrackNumber;
use crate::track::Year;
use vstd::std_specs::cmp::PartialEqSpec;

verus! {

broadcast use vstd::string::group_string_axioms;

/// One editor field as the user left it: whether they changed it since it
/// was filled in, and its text.
#[derive(Debug)]
pub struct FieldInput {
    pub touched: bool,
    pub text: String,
}

/// The value a numeric field stands for: nothing when the user left it
/// alone; the domain's unknown value, 0, when they cleared it; the number
/// they typed otherwise — and nothing for text that is not a number, so a
/// typo leaves every track's own value in place instead of blanking it.
pub open spec fn number_of(touched: bool, text: Seq<char>) -> Option<u32> {
    if !touched {
        None
    } else if trim(text).len() == 0 {
        Some(0)
    } else {
        match parse_int(trim(text), false, 0, u32::MAX as int) {
            Some(v) => Some(v as u32),
            None => None,
        }
    }
}

/// The value the numeric field `touched`, `text` stands for.
pub fn number_edit(touched: bool, text: &str) -> (r: Option<u32>)
    ensures
        r == number_of(touched, text@),
{
    if !touched {
        return None;
    }
    let t = trimmed(text);
    if t.as_str().is_empty() {
        Some(0)
    } else {
        parse_u32(t.as_str())
    }
}

/// The text a text field stands for: its text when the user changed it,
/// nothing otherwise.
pub fn text_edit(touched: bool, text: &str) -> (r: Option<String>)
    ensures
        r matches Some(s) ==> touched && s@ == text@,
        r is None ==> !touched,
{
    if touched {
        Some(owned(text))
    } else {
        None
    }
}

/// `o` is what a text field `touched`, `text` sets: the trimmed text when
/// touched, nothing otherwise.
pub open spec fn sets_text<T: View<V = Seq<char>>>(o: Option<T>, touched: bool, text: Seq<char>) -> bool {
    match o {
        Some(v) => touched && v@ == trim(text),
        None => !touched,
    }
}

/// `o` holds the number `n` a numeric field stands for, if any.
pub open spec fn sets_number(o: Option<int>, n: Option<u32>) -> bool {
    match o {
        Some(v) => n is Some && v == n->0,
        None => n is None,
    }
}

/// The editor's fields, in the order it shows them.
#[derive(Debug)]
pub struct EditForm {
    pub title: FieldInput,
    pub artist: FieldInput,
    pub album_artist: FieldInput,
    pub album: FieldInput,
    pub genre: FieldInput,
    pub composer: FieldInput,
    pub track_number: FieldInput,
    pub disc_number: FieldInput,
    pub year: FieldInput,
}

impl EditForm {
    /// The edit the form describes: only the fields the user changed are
    /// set, so every track keeps its own value for the others. A year is
    /// narrowed to 16 bits.
    pub fn to_edit(&self) -> (r: TrackEdit)
        ensures
            sets_text(r.title, self.title.touched, self.title.text@),
            sets_text(r.artist, self.artist.touched, self.artist.text@),
            sets_text(r.album_artist, self.album_artist.touched, self.album_artist.text@),
            sets_text(r.album, self.album.touched, self.album.text@),
            sets_text(r.genre, self.genre.touched, self.genre.text@),
            sets_text(r.composer, self.composer.touched, self.composer.text@),
            sets_number(
                match r.track_number {
                    Some(n) => Some(n@ as int),
                    None => None,
                },
                number_of(self.track_number.touched, self.track_number.text@),
            ),
            sets_number(
                match r.disc_number {
                    Some(n) => Some(n@ as int),
                    None => None,
                },
                number_of(self.disc_number.touched, self.disc_number.text@),
            ),
            sets_number(
                match r.year {
                    Some(y) => Some(y@ as int),
                    None => None,
                },
                match number_of(self.year.touched, self.year.text@) {
                    Some(y) => Some((y as u16) as u32),
                    None => None,
                },
            ),
    {
        let title = if self.title.touched {
            Some(Title::new(self.title.text.as_str()))
        } else {
            None
        };
        let artist = if self.artist.touched {
            Some(Artist::new(self.artist.text.as_str()))
        } else {
            None
        };
        let album_artist = if self.album_artist.touched {
            Some(Artist::new(self.album_artist.text.as_str()))
        } else {
            None
        };
        let album = if self.album.touched {
            Some(AlbumTitle::new(self.album.text.as_str()))
        } else {
            None
        };
        let genre = if self.genre.touched {
            Some(Genre::new(self.genre.text.as_str()))
        } else {
            None
        };
        let composer = if self.composer.touched {
            Some(Composer::new(self.composer.text.as_str()))
        } else {
            None
        };
        let track_number = match number_edit(
            self.track_number.touched,
            self.track_number.text.as_str(),
        ) {
            Some(n) => Some(TrackNumber::new(n)),
            None => None,
        };
        let disc_number = match number_edit(
            self.disc_number.touched,
            self.disc_number.text.as_str(),
        ) {
            Some(n) => Some(DiscNumber::new(n)),
            None => None,
        };
        let year = match number_edit(self.year.touched, self.year.text.as_str()) {
            Some(y) => Some(Year::new(y as u16)),
            None => None,
        };
        TrackEdit {
            title,
            artist,
            album_artist,
            album,
            genre,
            composer,
            track_number,
            disc_number,
            year,
        }
    }
}

/// A tag value shown as its text in the editor.
pub trait TagText: View<V = Seq<char>> + Sized {
    /// The value's text.
    fn text(&self) -> (r: &str)
        ensures
            r@ == self@,
    ;
}

impl TagText for Title {
    fn text(&self) -> (r: &str) {
        self.as_str()
    }
}

impl TagText for Artist {
    fn text(&self) -> (r: &str) {
        self.as_str()
    }
}

impl TagText for AlbumTitle {
    fn text(&self) -> (r: &str) {
        self.as_str()
    }
}

impl TagText for Genre {
    fn text(&self) -> (r: &str) {
        self.as_str()
    }
}

impl TagText for Composer {
    fn text(&self) -> (r: &str) {
        self.as_str()
    }
}

/// What a text field shows for `tracks`: the text of the value `extract`
/// gives every one of them, or `Mixed` ("Multiple Values") when they differ
/// or there are none.
pub fn text_shared<T: TagText + Clone + PartialEq, F: Fn(&Track) -> T>(
    tracks: &[Track],
    extract: F,
) -> (r: Shared<String>)
    requires
        forall|i: int| 0 <= i < tracks@.len() ==> extract.requires((&tracks@[i],)),
    ensures
        tracks@.len() == 0 ==> r is Mixed,
        r matches Shared::Common(s) ==> exists|vals: Seq<T>|
            {
                &&& extracted(extract, tracks@, vals)
                &&& vals.len() == tracks@.len()
                &&& s@ == vals[0]@
                &&& T::obeys_eq_spec() ==> shared_of(vals) is Common
            },
        tracks@.len() > 0 && r is Mixed ==> exists|vals: Seq<T>|
            {
                &&& extracted(extract, tracks@, vals)
                &&& vals.len() >= 2
                &&& T::obeys_eq_spec() ==> !vals.last().eq_spec(&vals[0])
            },
{
    let shared = Shared::of(tracks, extract);
    match shared {
        Shared::Common(v) => {
            let s = owned(v.text());
            proof {
                let vals = choose|vals: Seq<T>|
                    {
                        &&& extracted(extract, tracks@, vals)
                        &&& vals.len() == tracks@.len()
                        &&& v == vals[0]
                        &&& T::obeys_eq_spec() ==> shared == shared_of(vals)
                    };
                assert(s@ == vals[0]@);
            }
            Shared::Common(s)
        },
        Shared::Mixed => Shared::Mixed,
    }
}

/// The text a number shows in the editor: blank for the unknown value 0,
/// its decimal digits otherwise.
pub open spec fn number_text(n: u32) -> Seq<char> {
    if n == 0 {
        Seq::empty()
    } else {
        decimal(n as nat)
    }
}

/// What a numeric field shows for `tracks`: the number `extract` gives
/// every one of them (blank when it is the unknown value 0), or `Mixed`
/// when they differ or there are none.
pub fn number_shared<F: Fn(&Track) -> u32>(tracks: &[Track], extract: F) -> (r: Shared<String>)
    requires
        forall|i: int| 0 <= i < tracks@.len() ==> extract.requires((&tracks@[i],)),
    ensures
        tracks@.len() == 0 ==> r is Mixed,
        r matches Shared::Common(s) ==> exists|vals: Seq<u32>|
            {
                &&& extracted(extract, tracks@, vals)
                &&& vals.len() == tracks@.len()
                &&& s@ == number_text(vals[0])
                &&& forall|i: int| 0 <= i < vals.len() ==> #[trigger] vals[i] == vals[0]
            },
        tracks@.len() > 0 && r is Mixed ==> exists|vals: Seq<u32>|
            {
                &&& extracted(extract, tracks@, vals)
                &&& vals.len() >= 2
                &&& vals.last() != vals[0]
            },
{
    let shared = Shared::of(tracks, extract);
    match shared {
        Shared::Common(n) => {
            let s = if n == 0 {
                String::new()
            } else {
                decimal_string(n as u64)
            };
            proof {
                let vals = choose|vals: Seq<u32>|
                    {
                        &&& extracted(extract, tracks@, vals)
                        &&& vals.len() == tracks@.len()
                        &&& n == vals[0]
                        &&& u32::obeys_eq_spec() ==> shared == shared_of(vals)
                    };
                assert(s@ == number_text(vals[0]));
            }
            Shared::Common(s)
        },
        Shared::Mixed => Shared::Mixed,
    }
}

} // verus!
