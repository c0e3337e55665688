//! The track model: one audio file and its metadata, each field a small
//! value type whose constructor normalises what it is given.
use vstd::prelude::*;

use crate::text::is_trimmed;
use crate::text::trim;
use crate::text::trimmed;
use vstd::std_specs::cmp::PartialEqSpecImpl;

verus! {

broadcast use vstd::string::group_string_axioms;

/// Why a track value was refused.
#[derive(Debug, PartialEq)]
pub enum TrackError {
    /// The path is not absolute; carries the path as given.
    RelativePath(String),
}

/// Database row id of a track.
#[derive(Debug, Clone, Copy, PartialEq, Eq, Structural, Hash, PartialOrd, Ord)]
pub struct TrackId(i64);

impl View for TrackId {
    type V = i64;

    closed spec fn view(&self) -> i64 {
        self.0
    }
}

impl TrackId {
    pub fn new(id: i64) -> (r: Self)
        ensures
            r@ == id,
    {
        TrackId(id)
    }

    pub fn value(self) -> (r: i64)
        ensures
            r == self@,
    {
        self.0
    }
}

/// Track title. Empty means the tag was absent or unreadable.
#[derive(Debug, Eq, Hash)]
pub struct Title(String);

impl PartialEq for Title {
    fn eq(&self, other: &Self) -> (r: bool) {
        self.0 == other.0
    }
}

impl PartialEqSpecImpl for Title {
    open spec fn obeys_eq_spec() -> bool {
        true
    }

    open spec fn eq_spec(&self, other: &Self) -> bool {
        self@ == other@
    }
}

impl View for Title {
    type V = Seq<char>;

    closed spec fn view(&self) -> Seq<char> {
        self.0@
    }
}

impl Title {
    #[verifier::type_invariant]
    spec fn inv(self) -> bool {
        is_trimmed(self.0@)
    }

    /// The title `raw` with surrounding white space removed.
    pub fn new(raw: &str) -> (r: Self)
        ensures
            r@ == trim(raw@),
    {
        Title(trimmed(raw))
    }

    pub fn as_str(&self) -> (r: &str)
        ensures
            r@ == self@,
            is_trimmed(r@),
    {
        proof {
            use_type_invariant(self);
        }
        self.0.as_str()
    }

    pub fn is_unknown(&self) -> (r: bool)
        ensures
            r == (self@.len() == 0),
    {
        self.0.as_str().is_empty()
    }
}

impl Clone for Title {
    fn clone(&self) -> (r: Self)
        ensures
            r == *self,
    {
        proof {
            use_type_invariant(self);
        }
        Title(self.0.clone())
    }
}

/// Artist name. Empty means the tag was absent or unreadable.
#[derive(Debug, Eq, Hash)]
pub struct Artist(String);

impl PartialEq for Artist {
    fn eq(&self, other: &Self) -> (r: bool) {
        self.0 == other.0
    }
}

impl PartialEqSpecImpl for Artist {
    open spec fn obeys_eq_spec() -> bool {
        true
    }

    open spec fn eq_spec(&self, other: &Self) -> bool {
        self@ == other@
    }
}

impl View for Artist {
    type V = Seq<char>;

    closed spec fn view(&self) -> Seq<char> {
        self.0@
    }
}

impl Artist {
    #[verifier::type_invariant]
    spec fn inv(self) -> bool {
        is_trimmed(self.0@)
    }

    /// The name `raw` with surrounding white space removed.
    pub fn new(raw: &str) -> (r: Self)
        ensures
            r@ == trim(raw@),
    {
        Artist(trimmed(raw))
    }

    pub fn as_str(&self) -> (r: &str)
        ensures
            r@ == self@,
            is_trimmed(r@),
    {
        proof {
            use_type_invariant(self);
        }
        self.0.as_str()
    }

    pub fn is_unknown(&self) -> (r: bool)
        ensures
            r == (self@.len() == 0),
    {
        self.0.as_str().is_empty()
    }
}

impl Clone for Artist {
    fn clone(&self) -> (r: Self)
        ensures
            r == *self,
    {
        proof {
            use_type_invariant(self);
        }
        Artist(self.0.clone())
    }
}

/// Album title. Empty means the tag was absent or unreadable.
#[derive(Debug, Eq, Hash)]
pub struct AlbumTitle(String);

impl PartialEq for AlbumTitle {
    fn eq(&self, other: &Self) -> (r: bool) {
        self.0 == other.0
    }
}

impl PartialEqSpecImpl for AlbumTitle {
    open spec fn obeys_eq_spec() -> bool {
        true
    }

    open spec fn eq_spec(&self, other: &Self) -> bool {
        self@ == other@
    }
}

impl View for AlbumTitle {
    type V = Seq<char>;

    closed spec fn view(&self) -> Seq<char> {
        self.0@
    }
}

impl AlbumTitle {
    #[verifier::type_invariant]
    spec fn inv(self) -> bool {
        is_trimmed(self.0@)
    }

    /// The title `raw` with surrounding white space removed.
    pub fn new(raw: &str) -> (r: Self)
        ensures
            r@ == trim(raw@),
    {
        AlbumTitle(trimmed(raw))
    }

    pub fn as_str(&self) -> (r: &str)
        ensures
            r@ == self@,
            is_trimmed(r@),
    {
        proof {
            use_type_invariant(self);
        }
        self.0.as_str()
    }
}

impl Clone for AlbumTitle {
    fn clone(&self) -> (r: Self)
        ensures
            r == *self,
    {
        proof {
            use_type_invariant(self);
        }
        AlbumTitle(self.0.clone())
    }
}

/// Musical genre. Empty means the tag was absent or unreadable.
#[derive(Debug, Eq, Hash)]
pub struct Genre(String);

impl PartialEq for Genre {
    fn eq(&self, other: &Self) -> (r: bool) {
        self.0 == other.0
    }
}

impl PartialEqSpecImpl for Genre {
    open spec fn obeys_eq_spec() -> bool {
        true
    }

    open spec fn eq_spec(&self, other: &Self) -> bool {
        self@ == other@
    }
}

impl View for Genre {
    type V = Seq<char>;

    closed spec fn view(&self) -> Seq<char> {
        self.0@
    }
}

impl Genre {
    #[verifier::type_invariant]
    spec fn inv(self) -> bool {
        is_trimmed(self.0@)
    }

    /// The genre `raw` with surrounding white space removed.
    pub fn new(raw: &str) -> (r: Self)
        ensures
            r@ == trim(raw@),
    {
        Genre(trimmed(raw))
    }

    pub fn as_str(&self) -> (r: &str)
        ensures
            r@ == self@,
            is_trimmed(r@),
    {
        proof {
            use_type_invariant(self);
        }
        self.0.as_str()
    }
}

impl Clone for Genre {
    fn clone(&self) -> (r: Self)
        ensures
            r == *self,
    {
        proof {
            use_type_invariant(self);
        }
        Genre(self.0.clone())
    }
}

/// Composer name. Empty means the tag was absent or unreadable.
#[derive(Debug, Eq, Hash)]
pub struct Composer(String);

impl PartialEq for Composer {
    fn eq(&self, other: &Self) -> (r: bool) {
        self.0 == other.0
    }
}

impl PartialEqSpecImpl for Composer {
    open spec fn obeys_eq_spec() -> bool {
        true
    }

    open spec fn eq_spec(&self, other: &Self) -> bool {
        self@ == other@
    }
}

impl View for Composer {
    type V = Seq<char>;

    closed spec fn view(&self) -> Seq<char> {
        self.0@
    }
}

impl Composer {
    #[verifier::type_invariant]
    spec fn inv(self) -> bool {
        is_trimmed(self.0@)
    }

    /// The name `raw` with surrounding white space removed.
    pub fn new(raw: &str) -> (r: Self)
        ensures
            r@ == trim(raw@),
    {
        Composer(trimmed(raw))
    }

    pub fn as_str(&self) -> (r: &str)
        ensures
            r@ == self@,
            is_trimmed(r@),
    {
        proof {
            use_type_invariant(self);
        }
        self.0.as_str()
    }

    pub fn is_unknown(&self) -> (r: bool)
        ensures
            r == (self@.len() == 0),
    {
        self.0.as_str().is_empty()
    }
}

impl Clone for Composer {
    fn clone(&self) -> (r: Self)
        ensures
            r == *self,
    {
        proof {
            use_type_invariant(self);
        }
        Composer(self.0.clone())
    }
}

/// What `Duration::new(secs, nanos)` gives: the span of `secs` seconds and
/// `nanos` nanoseconds. `Duration` is opaque here, so its value is named,
/// not taken apart.
pub uninterp spec fn duration_new(secs: u64, nanos: u32) -> core::time::Duration;

/// The `core::time::Duration` of `secs` seconds and `nanos` nanoseconds
/// (`Duration::new`); with `nanos` below a second it cannot overflow or
/// panic. The contract claims that the result is what `Duration::new`
/// gives for these arguments, and that no other seconds and sub-second
/// nanoseconds give the same duration: `as_secs` and `subsec_nanos` read
/// them back.
#[verifier::external_body]
pub(crate) fn std_duration(secs: u64, nanos: u32) -> (r: core::time::Duration)
    requires
        nanos < 1_000_000_000,
    ensures
        r == duration_new(secs, nanos),
        forall|s: u64, n: u32|
            n < 1_000_000_000 && #[trigger] duration_new(s, n) == r ==> s == secs && n == nanos,
{
    core::time::Duration::new(secs, nanos)
}

/// Audio track duration, kept to the millisecond. Always non-negative.
#[derive(Debug, Clone, Copy, PartialEq, Eq, Structural, PartialOrd, Ord, Default)]
pub struct TrackDuration {
    secs: u64,
    millis: u32,
}

impl View for TrackDuration {
    type V = nat;

    /// The duration in milliseconds.
    closed spec fn view(&self) -> nat {
        self.secs as nat * 1000 + self.millis as nat
    }
}

impl TrackDuration {
    #[verifier::type_invariant]
    spec fn inv(self) -> bool {
        self.millis < 1000
    }

    pub fn from_secs(secs: u64) -> (r: Self)
        ensures
            r@ == secs as nat * 1000,
    {
        TrackDuration { secs, millis: 0 }
    }

    pub fn from_millis(millis: u64) -> (r: Self)
        ensures
            r@ == millis as nat,
    {
        TrackDuration { secs: millis / 1000, millis: (millis % 1000) as u32 }
    }

    /// Whole seconds, rounded down.
    pub fn as_secs(self) -> (r: u64)
        ensures
            r as nat == self@ / 1000,
    {
        proof {
            use_type_invariant(self);
        }
        self.secs
    }

    /// Whole milliseconds, saturating at `u64::MAX`.
    pub fn as_millis(self) -> (r: u64)
        ensures
            r as nat == if self@ <= u64::MAX { self@ } else { u64::MAX as nat },
    {
        proof {
            use_type_invariant(self);
        }
        if self.secs > (u64::MAX - 999) / 1000 {
            if self.secs as u128 * 1000 + self.millis as u128 > u64::MAX as u128 {
                return u64::MAX;
            }
        }
        self.secs * 1000 + self.millis as u64
    }

    /// Whole milliseconds, exactly.
    pub fn total_millis(self) -> (r: u128)
        ensures
            r == self@,
    {
        proof {
            use_type_invariant(self);
        }
        self.secs as u128 * 1000 + self.millis as u128
    }

    /// The same span as a `core::time::Duration`: its whole seconds, and its
    /// remaining milliseconds as nanoseconds.
    pub fn as_duration(self) -> (r: core::time::Duration)
        ensures
            r == duration_new((self@ / 1000) as u64, ((self@ % 1000) * 1_000_000) as u32),
            forall|s: u64, n: u32|
                n < 1_000_000_000 && #[trigger] duration_new(s, n) == r ==> s == self@ / 1000 && n
                    == (self@ % 1000) * 1_000_000,
    {
        proof {
            use_type_invariant(self);
        }
        std_duration(self.secs, self.millis * 1_000_000)
    }

    /// Orders two durations by length: `-1`, `0` or `1`.
    pub fn order_against(self, other: TrackDuration) -> (r: i8)
        ensures
            r == if self@ < other@ { -1i8 } else if self@ == other@ { 0i8 } else { 1i8 },
    {
        proof {
            use_type_invariant(self);
            use_type_invariant(other);
        }
        if self.secs < other.secs {
            -1
        } else if self.secs > other.secs {
            1
        } else if self.millis < other.millis {
            -1
        } else if self.millis > other.millis {
            1
        } else {
            0
        }
    }
}

/// 1-based track position within a disc. 0 means the tag was absent.
#[derive(Debug, Clone, Copy, PartialEq, Eq, Structural, Default)]
pub struct TrackNumber(u32);

impl View for TrackNumber {
    type V = u32;

    closed spec fn view(&self) -> u32 {
        self.0
    }
}

impl TrackNumber {
    pub fn new(n: u32) -> (r: Self)
        ensures
            r@ == n,
    {
        TrackNumber(n)
    }

    pub fn value(self) -> (r: u32)
        ensures
            r == self@,
    {
        self.0
    }

    pub fn is_unknown(self) -> (r: bool)
        ensures
            r == (self@ == 0),
    {
        self.0 == 0
    }
}

/// 1-based disc number within an album. 0 means the tag was absent.
#[derive(Debug, Clone, Copy, PartialEq, Eq, Structural, Default)]
pub struct DiscNumber(u32);

impl View for DiscNumber {
    type V = u32;

    closed spec fn view(&self) -> u32 {
        self.0
    }
}

impl DiscNumber {
    pub fn new(n: u32) -> (r: Self)
        ensures
            r@ == n,
    {
        DiscNumber(n)
    }

    pub fn value(self) -> (r: u32)
        ensures
            r == self@,
    {
        self.0
    }

    pub fn is_unknown(self) -> (r: bool)
        ensures
            r == (self@ == 0),
    {
        self.0 == 0
    }
}

/// Release year. 0 means the tag was absent.
#[derive(Debug, Clone, Copy, PartialEq, Eq, Structural, Default)]
pub struct Year(u16);

impl View for Year {
    type V = u16;

    closed spec fn view(&self) -> u16 {
        self.0
    }
}

impl Year {
    pub fn new(y: u16) -> (r: Self)
        ensures
            r@ == y,
    {
        Year(y)
    }

    pub fn value(self) -> (r: u16)
        ensures
            r == self@,
    {
        self.0
    }

    pub fn is_unknown(self) -> (r: bool)
        ensures
            r == (self@ == 0),
    {
        self.0 == 0
    }
}

/// Whether `p` is an absolute path on this platform: it starts at the root.
pub open spec fn is_absolute(p: Seq<char>) -> bool {
    p.len() > 0 && p[0] == '/'
}

/// Absolute filesystem path to an audio file.
#[derive(Debug, Eq, Hash)]
pub struct TrackPath(String);

impl PartialEq for TrackPath {
    fn eq(&self, other: &Self) -> (r: bool) {
        self.0 == other.0
    }
}

impl PartialEqSpecImpl for TrackPath {
    open spec fn obeys_eq_spec() -> bool {
        true
    }

    open spec fn eq_spec(&self, other: &Self) -> bool {
        self@ == other@
    }
}

impl View for TrackPath {
    type V = Seq<char>;

    closed spec fn view(&self) -> Seq<char> {
        self.0@
    }
}

impl TrackPath {
    #[verifier::type_invariant]
    spec fn inv(self) -> bool {
        is_absolute(self.0@)
    }

    /// The path `path`, or `Err(RelativePath)` if it is not absolute.
    pub fn new(path: &str) -> (r: Result<Self, TrackError>)
        ensures
            is_absolute(path@) ==> (r matches Ok(p) && p@ == path@),
            !is_absolute(path@) ==> (r matches Err(TrackError::RelativePath(q)) && q@ == path@),
    {
        let owned = crate::text::owned(path);
        let v = crate::text::chars_of(path);
        if v.len() > 0 && v[0] == '/' {
            Ok(TrackPath(owned))
        } else {
            Err(TrackError::RelativePath(owned))
        }
    }

    pub fn as_path(&self) -> (r: &str)
        ensures
            r@ == self@,
            is_absolute(r@),
    {
        proof {
            use_type_invariant(self);
        }
        self.0.as_str()
    }
}

impl Clone for TrackPath {
    fn clone(&self) -> (r: Self)
        ensures
            r == *self,
    {
        proof {
            use_type_invariant(self);
        }
        TrackPath(self.0.clone())
    }
}

/// Raw image bytes for an embedded album cover. JPEG or PNG.
#[derive(Debug, PartialEq, Eq)]
pub struct AlbumArtData(Vec<u8>);

impl View for AlbumArtData {
    type V = Seq<u8>;

    closed spec fn view(&self) -> Seq<u8> {
        self.0@
    }
}

impl AlbumArtData {
    pub fn new(bytes: Vec<u8>) -> (r: Self)
        ensures
            r@ == bytes@,
    {
        AlbumArtData(bytes)
    }

    pub fn as_bytes(&self) -> (r: &[u8])
        ensures
            r@ == self@,
    {
        self.0.as_slice()
    }
}

impl Clone for AlbumArtData {
    fn clone(&self) -> (r: Self)
        ensures
            r@ == self@,
    {
        AlbumArtData(self.0.clone())
    }
}

/// A single audio track with all its metadata.
#[derive(Debug, PartialEq, Eq)]
pub struct Track {
    pub id: TrackId,
    pub path: TrackPath,
    pub title: Title,
    pub artist: Artist,
    /// The album's credited artist. Empty falls back to `artist` for grouping.
    pub album_artist: Artist,
    pub album: AlbumTitle,
    pub genre: Genre,
    pub composer: Composer,
    pub duration: TrackDuration,
    pub track_number: TrackNumber,
    pub disc_number: DiscNumber,
    pub year: Year,
}

impl Clone for Track {
    fn clone(&self) -> (r: Self)
        ensures
            r == *self,
    {
        Track {
            id: self.id,
            path: self.path.clone(),
            title: self.title.clone(),
            artist: self.artist.clone(),
            album_artist: self.album_artist.clone(),
            album: self.album.clone(),
            genre: self.genre.clone(),
            composer: self.composer.clone(),
            duration: self.duration,
            track_number: self.track_number,
            disc_number: self.disc_number,
            year: self.year,
        }
    }
}

/// Clones every track of `tracks`, in order.
pub fn clone_tracks(tracks: &[Track]) -> (r: Vec<Track>)
    ensures
        r@ == tracks@,
{
    let mut r: Vec<Track> = Vec::new();
    let mut i: usize = 0;
    while i < tracks.len()
        invariant
            i <= tracks@.len(),
            r@ == tracks@.subrange(0, i as int),
        decreases tracks@.len() - i,
    {
        r.push(tracks[i].clone());
        assert(tracks@.subrange(0, i + 1) == tracks@.subrange(0, i as int).push(tracks@[i as int]));
        i = i + 1;
    }
    assert(tracks@.subrange(0, tracks@.len() as int) == tracks@);
    r
}

} // verus!
