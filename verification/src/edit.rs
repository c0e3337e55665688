//! User edits of track metadata: what a group of tracks has in common, and
//! how an edit changes a track.
use vstd::prelude::*;

use crate::track::AlbumTitle;
use crate::track::Artist;
use crate::track::Composer;
use crate::track::DiscNumber;
use crate::track::Genre;
use crate::track::Title;
use crate::track::Track;
use crate::track::TrackNumber;
use crate::track::Year;
use vstd::std_specs::cmp::PartialEqSpec;

verus! {

/// Whether a field's value is the same across every track in a group.
#[derive(Debug, Clone, PartialEq, Eq)]
pub enum Shared<T> {
    Common(T),
    Mixed,
}

/// What a group whose values are `vals` shares: the first value when every
/// value equals it, else `Mixed` (always `Mixed` for an empty group).
pub open spec fn shared_of<T: PartialEq>(vals: Seq<T>) -> Shared<T> {
    if vals.len() > 0 && forall|i: int| 1 <= i < vals.len() ==> (#[trigger] vals[i]).eq_spec(&vals[0]) {
        Shared::Common(vals[0])
    } else {
        Shared::Mixed
    }
}

/// `vals` are what `extract` gave for the first `vals.len()` tracks.
pub open spec fn extracted<T, F: Fn(&Track) -> T>(extract: F, tracks: Seq<Track>, vals: Seq<T>) -> bool {
    &&& vals.len() <= tracks.len()
    &&& forall|i: int| 0 <= i < vals.len() ==> extract.ensures((&tracks[i],), #[trigger] vals[i])
}

impl<T: Clone + PartialEq> Shared<T> {
    /// `Mixed` if `tracks` is empty or `extract` disagrees across them.
    ///
    /// A `Common` result holds what `extract` gave for the first track, and
    /// every other track's value equals it; a `Mixed` result for a non-empty
    /// group comes with a track whose value differs from the first one's.
    pub fn of<F: Fn(&Track) -> T>(tracks: &[Track], extract: F) -> (r: Self)
        requires
            forall|i: int| 0 <= i < tracks@.len() ==> extract.requires((&tracks@[i],)),
        ensures
            tracks@.len() == 0 ==> r is Mixed,
            r matches Shared::Common(v) ==> exists|vals: Seq<T>|
                {
                    &&& extracted(extract, tracks@, vals)
                    &&& vals.len() == tracks@.len()
                    &&& v == vals[0]
                    &&& T::obeys_eq_spec() ==> r == shared_of(vals)
                },
            tracks@.len() > 0 && r is Mixed ==> exists|vals: Seq<T>|
                {
                    &&& extracted(extract, tracks@, vals)
                    &&& vals.len() >= 2
                    &&& T::obeys_eq_spec() ==> !vals.last().eq_spec(&vals[0])
                },
    {
        if tracks.len() == 0 {
            return Shared::Mixed;
        }
        let first = extract(&tracks[0]);
        let ghost mut vals: Seq<T> = seq![first];
        let mut i: usize = 1;
        while i < tracks.len()
            invariant
                1 <= i <= tracks@.len(),
                vals.len() == i,
                vals[0] == first,
                forall|k: int| 0 <= k < tracks@.len() ==> extract.requires((&tracks@[k],)),
                extracted(extract, tracks@, vals),
                T::obeys_eq_spec() ==> forall|k: int| 1 <= k < i ==> (#[trigger] vals[k]).eq_spec(
                    &vals[0],
                ),
            decreases tracks@.len() - i,
        {
            let v = extract(&tracks[i]);
            let same = v == first;
            proof {
                vals = vals.push(v);
            }
            assert(extracted(extract, tracks@, vals)) by {
                assert(vals[i as int] == v);
            }
            if !same {
                assert(vals.last() == v);
                assert(T::obeys_eq_spec() ==> !vals.last().eq_spec(&vals[0]));
                return Shared::Mixed;
            }
            i = i + 1;
        }
        Shared::Common(first)
    }
}

/// A user-authored change to a track's metadata. `None` means "leave
/// unchanged" — distinct from a domain "unknown" value (empty title, year 0).
#[derive(Debug)]
pub struct TrackEdit {
    pub title: Option<Title>,
    pub artist: Option<Artist>,
    pub album_artist: Option<Artist>,
    pub album: Option<AlbumTitle>,
    pub genre: Option<Genre>,
    pub composer: Option<Composer>,
    pub track_number: Option<TrackNumber>,
    pub disc_number: Option<DiscNumber>,
    pub year: Option<Year>,
}

/// `edit` when it is set, else `current`.
pub open spec fn or_keep<T>(edit: Option<T>, current: T) -> T {
    match edit {
        Some(v) => v,
        None => current,
    }
}

/// `track` with every set field of `edit` written over it.
pub open spec fn edited(edit: TrackEdit, track: Track) -> Track {
    Track {
        title: or_keep(edit.title, track.title),
        artist: or_keep(edit.artist, track.artist),
        album_artist: or_keep(edit.album_artist, track.album_artist),
        album: or_keep(edit.album, track.album),
        genre: or_keep(edit.genre, track.genre),
        composer: or_keep(edit.composer, track.composer),
        track_number: or_keep(edit.track_number, track.track_number),
        disc_number: or_keep(edit.disc_number, track.disc_number),
        year: or_keep(edit.year, track.year),
        ..track
    }
}

impl Clone for TrackEdit {
    fn clone(&self) -> (r: Self)
        ensures
            r == *self,
    {
        TrackEdit {
            title: match &self.title {
                Some(t) => Some(t.clone()),
                None => None,
            },
            artist: match &self.artist {
                Some(t) => Some(t.clone()),
                None => None,
            },
            album_artist: match &self.album_artist {
                Some(t) => Some(t.clone()),
                None => None,
            },
            album: match &self.album {
                Some(t) => Some(t.clone()),
                None => None,
            },
            genre: match &self.genre {
                Some(t) => Some(t.clone()),
                None => None,
            },
            composer: match &self.composer {
                Some(t) => Some(t.clone()),
                None => None,
            },
            track_number: self.track_number,
            disc_number: self.disc_number,
            year: self.year,
        }
    }
}

impl Default for TrackEdit {
    /// The edit that changes nothing.
    fn default() -> (r: Self)
        ensures
            r.title is None,
            r.artist is None,
            r.album_artist is None,
            r.album is None,
            r.genre is None,
            r.composer is None,
            r.track_number is None,
            r.disc_number is None,
            r.year is None,
    {
        TrackEdit {
            title: None,
            artist: None,
            album_artist: None,
            album: None,
            genre: None,
            composer: None,
            track_number: None,
            disc_number: None,
            year: None,
        }
    }
}

impl TrackEdit {
    /// Applies every `Some` field onto `track`; `None` fields pass through.
    pub fn apply(&self, track: Track) -> (r: Track)
        ensures
            r == edited(*self, track),
    {
        Track {
            title: match &self.title {
                Some(t) => t.clone(),
                None => track.title,
            },
            artist: match &self.artist {
                Some(t) => t.clone(),
                None => track.artist,
            },
            album_artist: match &self.album_artist {
                Some(t) => t.clone(),
                None => track.album_artist,
            },
            album: match &self.album {
                Some(t) => t.clone(),
                None => track.album,
            },
            genre: match &self.genre {
                Some(t) => t.clone(),
                None => track.genre,
            },
            composer: match &self.composer {
                Some(t) => t.clone(),
                None => track.composer,
            },
            track_number: match self.track_number {
                Some(n) => n,
                None => track.track_number,
            },
            disc_number: match self.disc_number {
                Some(n) => n,
                None => track.disc_number,
            },
            year: match self.year {
                Some(y) => y,
                None => track.year,
            },
            id: track.id,
            path: track.path,
            duration: track.duration,
        }
    }

    /// True when the edit can change which cover an album shows: it touches
    /// a field the album grouping is derived from (album, album artist, or
    /// artist). A title, genre or number edit must not force every cover in
    /// the library to re-decode.
    pub fn affects_art_grouping(&self) -> (r: bool)
        ensures
            r == (self.album is Some || self.album_artist is Some || self.artist is Some),
    {
        self.album.is_some() || self.album_artist.is_some() || self.artist.is_some()
    }

    /// True when saving the edit, with replacement cover art when
    /// `new_art` is set, can change which cover an album shows: new art
    /// always can; otherwise only an edit of the grouping fields can.
    pub fn save_affects_art(&self, new_art: bool) -> (r: bool)
        ensures
            r == (new_art || self.album is Some || self.album_artist is Some || self.artist is Some),
    {
        new_art || self.affects_art_grouping()
    }
}

/// Applying the edit that changes nothing gives the track back unchanged.
pub proof fn law_empty_edit_is_identity(edit: TrackEdit, track: Track)
    requires
        edit.title is None,
        edit.artist is None,
        edit.album_artist is None,
        edit.album is None,
        edit.genre is None,
        edit.composer is None,
        edit.track_number is None,
        edit.disc_number is None,
        edit.year is None,
    ensures
        edited(edit, track) == track,
{
}

/// An edit writes every field it sets and nothing else: the edited track
/// holds the edit's value in each set field, whatever the track held
/// there, and the track's own value in each unset field; the id, path and
/// duration are never touched.
pub proof fn law_set_fields_take_the_edits_values(edit: TrackEdit, track: Track)
    ensures
        ({
            let r = edited(edit, track);
            &&& (match edit.title {
                Some(v) => r.title == v,
                None => r.title == track.title,
            })
            &&& (match edit.artist {
                Some(v) => r.artist == v,
                None => r.artist == track.artist,
            })
            &&& (match edit.album_artist {
                Some(v) => r.album_artist == v,
                None => r.album_artist == track.album_artist,
            })
            &&& (match edit.album {
                Some(v) => r.album == v,
                None => r.album == track.album,
            })
            &&& (match edit.genre {
                Some(v) => r.genre == v,
                None => r.genre == track.genre,
            })
            &&& (match edit.composer {
                Some(v) => r.composer == v,
                None => r.composer == track.composer,
            })
            &&& (match edit.track_number {
                Some(v) => r.track_number == v,
                None => r.track_number == track.track_number,
            })
            &&& (match edit.disc_number {
                Some(v) => r.disc_number == v,
                None => r.disc_number == track.disc_number,
            })
            &&& (match edit.year {
                Some(v) => r.year == v,
                None => r.year == track.year,
            })
            &&& r.id == track.id
            &&& r.path == track.path
            &&& r.duration == track.duration
        }),
{
}

/// Applying an edit twice is applying it once.
pub proof fn law_apply_is_idempotent(edit: TrackEdit, track: Track)
    ensures
        edited(edit, edited(edit, track)) == edited(edit, track),
{
}

/// An edit that leaves album, album artist and artist alone keeps the
/// track's album grouping as it was.
pub proof fn law_grouping_kept_without_key_fields(edit: TrackEdit, track: Track)
    requires
        !(edit.album is Some || edit.album_artist is Some || edit.artist is Some),
    ensures
        edited(edit, track).album == track.album,
        edited(edit, track).album_artist == track.album_artist,
        edited(edit, track).artist == track.artist,
{
}

/// The successes before the first failure among the per-file write
/// outcomes `s`, in order.
pub open spec fn written_before_failure<T, E>(s: Seq<Result<T, E>>) -> Seq<T>
    decreases s.len(),
{
    if s.len() == 0 {
        Seq::empty()
    } else {
        match s[0] {
            Ok(t) => seq![t] + written_before_failure(s.drop_first()),
            Err(_) => Seq::empty(),
        }
    }
}

/// The first failure among the per-file write outcomes `s`, if any.
pub open spec fn first_failure<T, E>(s: Seq<Result<T, E>>) -> Option<E>
    decreases s.len(),
{
    if s.len() == 0 {
        None
    } else {
        match s[0] {
            Ok(_) => first_failure(s.drop_first()),
            Err(e) => Some(e),
        }
    }
}

/// Splits the outcomes of writing an edit's files, in order, into the
/// files written before the first failure and that failure: writing stops
/// at the first file that fails, so nothing after it counts.
pub fn split_at_failure<T, E>(outcomes: Vec<Result<T, E>>) -> (r: (Vec<T>, Option<E>))
    ensures
        r.0@ == written_before_failure(outcomes@),
        r.1 == first_failure(outcomes@),
{
    let ghost all = outcomes@;
    let mut rest = outcomes;
    let mut written: Vec<T> = Vec::new();
    while rest.len() > 0
        invariant
            all == outcomes@,
            written@ + written_before_failure(rest@) == written_before_failure(all),
            first_failure(rest@) == first_failure(all),
        decreases rest@.len(),
    {
        let ghost before = rest@;
        let o = rest.remove(0);
        assert(rest@ =~= before.drop_first());
        assert(before[0] == o);
        match o {
            Ok(t) => {
                written.push(t);
                assert(written@ + written_before_failure(rest@) =~= written_before_failure(all));
            },
            Err(e) => {
                assert(written_before_failure(before) == Seq::<T>::empty());
                assert(first_failure(before) == Some(e));
                assert(written@ + Seq::<T>::empty() =~= written@);
                return (written, Some(e));
            },
        }
    }
    assert(written@ + Seq::<T>::empty() =~= written@);
    (written, None)
}

/// How a save ends, given the failed write that stopped it (if any) and the
/// outcome of committing the written tracks: a commit keeps what it saved
/// and reports the write failure; a failed commit saves nothing and reports
/// the write failure if there was one, else its own.
pub fn settle_save<E>(write_failure: Option<E>, commit: Result<Vec<Track>, E>) -> (r: (
    Vec<Track>,
    Option<E>,
))
    ensures
        match commit {
            Ok(saved) => r.0@ == saved@ && r.1 == write_failure,
            Err(e) => r.0@.len() == 0 && r.1 == Some(
                match write_failure {
                    Some(w) => w,
                    None => e,
                },
            ),
        },
{
    match commit {
        Ok(saved) => (saved, write_failure),
        Err(e) => (
            Vec::new(),
            Some(
                match write_failure {
                    Some(w) => w,
                    None => e,
                },
            ),
        ),
    }
}

} // verus!
