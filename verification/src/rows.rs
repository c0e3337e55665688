//! How tracks and album summaries are stored as table rows, and read back.
use vstd::prelude::*;

use crate::album::AlbumSummary;
use crate::text::owned;
use crate::text::trim;
use crate::track::is_absolute;
use crate::track::AlbumTitle;
use crate::track::Artist;
use crate::track::Composer;
use crate::track::DiscNumber;
use crate::track::Genre;
use crate::track::Title;
use crate::track::Track;
use crate::track::TrackDuration;
use crate::track::TrackError;
use crate::track::TrackId;
use crate::track::TrackNumber;
use crate::track::TrackPath;
use crate::track::Year;

verus! {

broadcast use vstd::string::group_string_axioms;

// ---------------------------------------------------------------------------
// Cover-art content hash

/// The 64-bit FNV-1a offset basis.
pub const FNV_OFFSET: u64 = 0xcbf29ce484222325;

/// The 64-bit FNV-1a prime.
pub const FNV_PRIME: u64 = 0x0000_0100_0000_01b3;

/// The 64-bit FNV-1a hash of `data`.
pub open spec fn fnv1a(data: Seq<u8>) -> u64
    decreases data.len(),
{
    if data.len() == 0 {
        FNV_OFFSET
    } else {
        (fnv1a(data.drop_last()) ^ (data.last() as u64)).wrapping_mul(FNV_PRIME)
    }
}

/// 64-bit FNV-1a content hash of `data`, stored as a signed 64-bit integer
/// by a bit-preserving cast. It must stay FNV-1a forever: unlike a hasher
/// whose keys may change between toolchain releases, this keeps stored art
/// rows resolving after an upgrade. A collision only mis-displays a cover,
/// never loses data.
pub fn art_hash(data: &[u8]) -> (r: i64)
    ensures
        r == fnv1a(data@) as i64,
{
    let mut hash: u64 = FNV_OFFSET;
    let mut i: usize = 0;
    while i < data.len()
        invariant
            i <= data@.len(),
            hash == fnv1a(data@.take(i as int)),
        decreases data@.len() - i,
    {
        proof {
            assert(data@.take(i + 1).drop_last() =~= data@.take(i as int));
            assert(data@.take(i + 1).last() == data@[i as int]);
        }
        hash = hash ^ (data[i] as u64);
        hash = hash.wrapping_mul(FNV_PRIME);
        i = i + 1;
    }
    assert(data@.take(data@.len() as int) =~= data@);
    hash as i64
}

// ---------------------------------------------------------------------------
// Column values

/// The view of an optional text column.
pub open spec fn opt_view(v: Option<String>) -> Option<Seq<char>> {
    match v {
        Some(s) => Some(s@),
        None => None,
    }
}

/// The stored form of a text field: `NULL` (absent) when empty.
pub open spec fn column_text(s: Seq<char>) -> Option<Seq<char>> {
    if s.len() == 0 {
        None
    } else {
        Some(s)
    }
}

/// A text column as a field: `NULL` reads as empty, and the value is
/// trimmed as the tag types trim it.
pub open spec fn read_text(v: Option<Seq<char>>) -> Seq<char> {
    match v {
        Some(s) => trim(s),
        None => trim(Seq::empty()),
    }
}

/// The stored form of a number field: `NULL` (absent) when 0 (unknown).
pub open spec fn column_number(n: nat) -> Option<i64> {
    if n == 0 {
        None
    } else {
        Some(n as i64)
    }
}

/// An integer column's value, `NULL` reading as 0.
pub open spec fn or_zero_of(v: Option<i64>) -> i64 {
    match v {
        Some(n) => n,
        None => 0,
    }
}

/// The column text, or empty for `NULL`.
pub fn or_empty(v: Option<String>) -> (r: String)
    ensures
        r@ == match opt_view(v) {
            Some(s) => s,
            None => Seq::empty(),
        },
{
    match v {
        Some(s) => s,
        None => String::new(),
    }
}

/// The column value, or 0 for `NULL`.
pub fn or_zero(v: Option<i64>) -> (r: i64)
    ensures
        r == or_zero_of(v),
{
    match v {
        Some(n) => n,
        None => 0,
    }
}

// ---------------------------------------------------------------------------
// Tracks

/// Raw column values of a `tracks` row, before domain validation. `None`
/// is SQL `NULL`.
#[derive(Debug)]
pub struct TrackRow {
    pub id: i64,
    pub path: String,
    pub title: Option<String>,
    pub artist: Option<String>,
    pub album: Option<String>,
    pub genre: Option<String>,
    pub duration_ms: Option<i64>,
    pub track_number: Option<i64>,
    pub disc_number: Option<i64>,
    pub year: Option<i64>,
    pub album_artist: Option<String>,
    pub composer: Option<String>,
}

/// `track` is what the row `row` describes: every `NULL` read as the
/// domain's unknown value, and integers narrowed as casts narrow them.
pub open spec fn built_from(row: TrackRow, track: Track) -> bool {
    &&& track.id@ == row.id
    &&& track.path@ == row.path@
    &&& track.title@ == read_text(opt_view(row.title))
    &&& track.artist@ == read_text(opt_view(row.artist))
    &&& track.album_artist@ == read_text(opt_view(row.album_artist))
    &&& track.album@ == read_text(opt_view(row.album))
    &&& track.genre@ == read_text(opt_view(row.genre))
    &&& track.composer@ == read_text(opt_view(row.composer))
    &&& track.duration@ == (or_zero_of(row.duration_ms) as u64) as nat
    &&& track.track_number@ == or_zero_of(row.track_number) as u32
    &&& track.disc_number@ == or_zero_of(row.disc_number) as u32
    &&& track.year@ == or_zero_of(row.year) as u16
}

/// Builds a domain `Track` from a raw row, validating the path: a relative
/// path is refused with the path as stored.
pub fn build_track(row: TrackRow) -> (r: Result<Track, TrackError>)
    ensures
        is_absolute(row.path@) ==> (r matches Ok(t) && built_from(row, t)),
        !is_absolute(row.path@) ==> (r matches Err(TrackError::RelativePath(p)) && p@
            == row.path@),
{
    let ghost given = row;
    let TrackRow {
        id,
        path,
        title,
        artist,
        album,
        genre,
        duration_ms,
        track_number,
        disc_number,
        year,
        album_artist,
        composer,
    } = row;
    let path = TrackPath::new(path.as_str())?;
    let title = or_empty(title);
    let artist = or_empty(artist);
    let album_artist = or_empty(album_artist);
    let album = or_empty(album);
    let genre = or_empty(genre);
    let composer = or_empty(composer);
    Ok(
        Track {
            id: TrackId::new(id),
            path,
            title: Title::new(title.as_str()),
            artist: Artist::new(artist.as_str()),
            album_artist: Artist::new(album_artist.as_str()),
            album: AlbumTitle::new(album.as_str()),
            genre: Genre::new(genre.as_str()),
            composer: Composer::new(composer.as_str()),
            duration: TrackDuration::from_millis(or_zero(duration_ms) as u64),
            track_number: TrackNumber::new(or_zero(track_number) as u32),
            disc_number: DiscNumber::new(or_zero(disc_number) as u32),
            year: Year::new(or_zero(year) as u16),
        },
    )
}

/// The column values a track is stored with (its id is the row's own).
#[derive(Debug)]
pub struct TrackColumns {
    pub path: String,
    pub title: Option<String>,
    pub artist: Option<String>,
    pub album: Option<String>,
    pub genre: Option<String>,
    pub duration_ms: i64,
    pub track_number: Option<i64>,
    pub disc_number: Option<i64>,
    pub year: Option<i64>,
    pub album_artist: Option<String>,
    pub composer: Option<String>,
}

/// The stored form of an optional text field.
fn stored_text(s: &str) -> (r: Option<String>)
    ensures
        opt_view(r) == column_text(s@),
{
    if s.is_empty() {
        None
    } else {
        Some(owned(s))
    }
}

/// The column values `track` is stored with: unknown fields (empty text,
/// zero numbers) as `NULL`, and the duration in milliseconds, narrowed to a
/// signed 64-bit integer.
pub fn track_columns(track: &Track) -> (r: TrackColumns)
    ensures
        r.path@ == track.path@,
        opt_view(r.title) == column_text(track.title@),
        opt_view(r.artist) == column_text(track.artist@),
        opt_view(r.album) == column_text(track.album@),
        opt_view(r.genre) == column_text(track.genre@),
        opt_view(r.album_artist) == column_text(track.album_artist@),
        opt_view(r.composer) == column_text(track.composer@),
        r.duration_ms == track.duration@ as i64,
        r.track_number == column_number(track.track_number@ as nat),
        r.disc_number == column_number(track.disc_number@ as nat),
        r.year == column_number(track.year@ as nat),
{
    let number = track.track_number.value();
    let disc = track.disc_number.value();
    let year = track.year.value();
    TrackColumns {
        path: owned(track.path.as_path()),
        title: stored_text(track.title.as_str()),
        artist: stored_text(track.artist.as_str()),
        album: stored_text(track.album.as_str()),
        genre: stored_text(track.genre.as_str()),
        duration_ms: track.duration.total_millis() as i64,
        track_number: if number == 0 {
            None
        } else {
            Some(number as i64)
        },
        disc_number: if disc == 0 {
            None
        } else {
            Some(disc as i64)
        },
        year: if year == 0 {
            None
        } else {
            Some(year as i64)
        },
        album_artist: stored_text(track.album_artist.as_str()),
        composer: stored_text(track.composer.as_str()),
    }
}

/// Trimming a trimmed text changes nothing.
proof fn lemma_trim_fixes_trimmed(s: Seq<char>)
    requires
        crate::text::is_trimmed(s),
    ensures
        trim(s) == s,
{
    if s.len() > 0 {
        assert(crate::text::trim_start(s) == s);
        assert(crate::text::trim_end(s) == s);
    }
}

/// A stored track reads back as itself: every text field, number, year and
/// duration (one of at most `i64::MAX` milliseconds) that `track_columns`
/// stores is what `build_track` reads.
pub proof fn law_stored_track_reads_back(track: Track)
    requires
        track.duration@ <= i64::MAX,
        crate::text::is_trimmed(track.title@),
        crate::text::is_trimmed(track.artist@),
        crate::text::is_trimmed(track.album_artist@),
        crate::text::is_trimmed(track.album@),
        crate::text::is_trimmed(track.genre@),
        crate::text::is_trimmed(track.composer@),
    ensures
        read_text(column_text(track.title@)) == track.title@,
        read_text(column_text(track.artist@)) == track.artist@,
        read_text(column_text(track.album_artist@)) == track.album_artist@,
        read_text(column_text(track.album@)) == track.album@,
        read_text(column_text(track.genre@)) == track.genre@,
        read_text(column_text(track.composer@)) == track.composer@,
        (or_zero_of(Some(track.duration@ as i64)) as u64) as nat == track.duration@,
        or_zero_of(column_number(track.track_number@ as nat)) as u32 == track.track_number@,
        or_zero_of(column_number(track.disc_number@ as nat)) as u32 == track.disc_number@,
        or_zero_of(column_number(track.year@ as nat)) as u16 == track.year@,
{
    lemma_trim_fixes_trimmed(track.title@);
    lemma_trim_fixes_trimmed(track.artist@);
    lemma_trim_fixes_trimmed(track.album_artist@);
    lemma_trim_fixes_trimmed(track.album@);
    lemma_trim_fixes_trimmed(track.genre@);
    lemma_trim_fixes_trimmed(track.composer@);
    lemma_trim_fixes_trimmed(Seq::empty());
}

// ---------------------------------------------------------------------------
// Album summaries

/// Raw columns of one grouped album row. `None` is SQL `NULL`.
#[derive(Debug)]
pub struct AlbumRow {
    pub album: Option<String>,
    pub artist: Option<String>,
    pub genre: Option<String>,
    pub year: Option<i64>,
    pub has_art: bool,
}

/// Builds an `AlbumSummary` from a grouped row. Every field is infallible;
/// `NULL`s read as the domain's unknown values.
pub fn build_album_summary(row: AlbumRow) -> (r: AlbumSummary)
    ensures
        r.album@ == read_text(opt_view(row.album)),
        r.artist@ == read_text(opt_view(row.artist)),
        r.genre@ == read_text(opt_view(row.genre)),
        r.year@ == or_zero_of(row.year) as u16,
        r.has_art == row.has_art,
{
    let AlbumRow { album, artist, genre, year, has_art } = row;
    let album = or_empty(album);
    let artist = or_empty(artist);
    let genre = or_empty(genre);
    AlbumSummary {
        album: AlbumTitle::new(album.as_str()),
        artist: Artist::new(artist.as_str()),
        genre: Genre::new(genre.as_str()),
        year: Year::new(or_zero(year) as u16),
        has_art,
    }
}

// ---------------------------------------------------------------------------
// Tracks fetched by id

/// The last position of `id` in `ids`, if it occurs.
pub open spec fn last_position(ids: Seq<i64>, id: i64) -> Option<nat>
    decreases ids.len(),
{
    if ids.len() == 0 {
        None
    } else if ids.last() == id {
        Some((ids.len() - 1) as nat)
    } else {
        last_position(ids.drop_last(), id)
    }
}

/// The key a track with id `id` is ordered by: the last position of its id
/// among `ids`, or past every position when the id is not among them.
pub open spec fn id_key(ids: Seq<i64>, id: i64) -> int {
    match last_position(ids, id) {
        Some(p) => p as int,
        None => usize::MAX as int,
    }
}

/// Holds of the tracks whose key is `k`.
pub open spec fn key_is(ids: Seq<i64>, k: int) -> spec_fn(Track) -> bool {
    |t: Track| id_key(ids, t.id@) == k
}

/// The tracks whose key is below `n`, ordered by key, tracks of one key in
/// their given order.
pub open spec fn ordered_below(ids: Seq<i64>, tracks: Seq<Track>, n: nat) -> Seq<Track>
    decreases n,
{
    if n == 0 {
        Seq::empty()
    } else {
        ordered_below(ids, tracks, (n - 1) as nat) + tracks.filter(key_is(ids, n - 1))
    }
}

/// `tracks` in the order of `ids`: a stable ordering by key, so the tracks
/// follow the (last) positions of their ids, and tracks whose id is not
/// among `ids` come last, in their given order.
pub open spec fn ordered_by_ids(ids: Seq<i64>, tracks: Seq<Track>) -> Seq<Track> {
    ordered_below(ids, tracks, ids.len()) + tracks.filter(key_is(ids, usize::MAX as int))
}

/// The ids of `tracks`, in order.
pub open spec fn id_values(ids: Seq<TrackId>) -> Seq<i64> {
    Seq::new(ids.len(), |i: int| ids[i]@)
}

/// What `last_position` reports: the position of the last occurrence.
proof fn lemma_last_position(ids: Seq<i64>, id: i64)
    ensures
        match last_position(ids, id) {
            Some(p) => p < ids.len() && ids[p as int] == id && forall|j: int|
                p < j < ids.len() ==> ids[j] != id,
            None => forall|j: int| 0 <= j < ids.len() ==> ids[j] != id,
        },
    decreases ids.len(),
{
    if ids.len() > 0 {
        lemma_last_position(ids.drop_last(), id);
        if ids.last() != id {
            match last_position(ids.drop_last(), id) {
                Some(p) => {
                    assert(ids.drop_last()[p as int] == ids[p as int]);
                    assert forall|j: int| p < j < ids.len() implies ids[j] != id by {
                        if j < ids.len() - 1 {
                            assert(ids.drop_last()[j] == ids[j]);
                        }
                    }
                },
                None => {
                    assert forall|j: int| 0 <= j < ids.len() implies ids[j] != id by {
                        if j < ids.len() - 1 {
                            assert(ids.drop_last()[j] == ids[j]);
                        }
                    }
                },
            }
        }
    }
}

/// Whether no id after position `p` equals the one at `p`.
fn is_last_occurrence(ids: &[TrackId], p: usize) -> (r: bool)
    requires
        p < ids@.len(),
    ensures
        r == (last_position(id_values(ids@), ids@[p as int]@) == Some(p as nat)),
{
    let ghost v = id_values(ids@);
    proof {
        lemma_last_position(v, v[p as int]);
    }
    let n: usize = ids.len();
    assert(p < n);
    let mut j: usize = p + 1;
    while j < ids.len()
        invariant
            p < j <= ids@.len(),
            v == id_values(ids@),
            forall|k: int| p < k < j ==> v[k] != v[p as int],
        decreases ids@.len() - j,
    {
        assert(v[j as int] == ids@[j as int]@);
        assert(v[p as int] == ids@[p as int]@);
        if ids[j].value() == ids[p].value() {
            proof {
                lemma_last_position(v, v[p as int]);
                match last_position(v, v[p as int]) {
                    Some(q) => {
                        if q == p as nat {
                            assert(v[j as int] == v[p as int]);
                        }
                    },
                    None => {},
                }
            }
            return false;
        }
        j = j + 1;
    }
    proof {
        lemma_last_position(v, v[p as int]);
        match last_position(v, v[p as int]) {
            Some(q) => {
                if q != p as nat {
                    if q > p as nat {
                        assert(v[q as int] == v[p as int]);
                    } else {
                        assert(v[p as int] == v[p as int]);
                    }
                }
            },
            None => {
                assert(v[p as int] == v[p as int]);
            },
        }
    }
    true
}

/// Whether `id` occurs in `ids`.
fn occurs(ids: &[TrackId], id: i64) -> (r: bool)
    ensures
        r == (last_position(id_values(ids@), id) is Some),
{
    let ghost v = id_values(ids@);
    proof {
        lemma_last_position(v, id);
    }
    let mut j: usize = 0;
    while j < ids.len()
        invariant
            j <= ids@.len(),
            v == id_values(ids@),
            forall|k: int| 0 <= k < j ==> v[k] != id,
        decreases ids@.len() - j,
    {
        assert(v[j as int] == ids@[j as int]@);
        if ids[j].value() == id {
            assert(v[j as int] == id);
            proof {
                lemma_last_position(v, id);
            }
            return true;
        }
        j = j + 1;
    }
    false
}

/// Appends, in order, the tracks of `tracks` whose key is `k`: those whose
/// id is `only` (whose last position among `ids` is `k`), or, when `only` is
/// `None`, those whose id is not among `ids` at all.
fn push_tracks_with_key(out: &mut Vec<Track>, tracks: &[Track], ids: &[TrackId], k: usize, only: Option<i64>)
    requires
        k < ids@.len() || k == usize::MAX,
        k < ids@.len() ==> only == Some(ids@[k as int]@) && last_position(id_values(ids@), ids@[k as int]@) == Some(k as nat),
        k == usize::MAX ==> only is None,
    ensures
        final(out)@ == old(out)@ + tracks@.filter(key_is(id_values(ids@), k as int)),
{
    let ghost v = id_values(ids@);
    let ghost pred = key_is(v, k as int);
    let mut i: usize = 0;
    while i < tracks.len()
        invariant
            i <= tracks@.len(),
            v == id_values(ids@),
            pred == key_is(v, k as int),
            k < ids@.len() || k == usize::MAX,
            k < ids@.len() ==> only == Some(ids@[k as int]@) && last_position(v, ids@[k as int]@) == Some(k as nat),
            k == usize::MAX ==> only is None,
            out@ == old(out)@ + tracks@.take(i as int).filter(pred),
        decreases tracks@.len() - i,
    {
        let t = &tracks[i];
        let keep = match only {
            Some(id) => t.id.value() == id,
            None => !occurs(ids, t.id.value()),
        };
        proof {
            reveal(Seq::filter);
            assert(tracks@.take(i + 1).drop_last() =~= tracks@.take(i as int));
            assert(tracks@.take(i + 1).last() == tracks@[i as int]);
            lemma_last_position(v, t.id@);
            assert(v.len() == ids@.len());
            match only {
                Some(id) => {
                    if keep {
                        assert(t.id@ == v[k as int]);
                        assert(id_key(v, t.id@) == k as int);
                        assert(pred(tracks@[i as int]));
                    } else {
                        if pred(tracks@[i as int]) {
                            lemma_last_position(v, ids@[k as int]@);
                            assert(v[k as int] == t.id@);
                        }
                    }
                },
                None => {
                    if !keep {
                        match last_position(v, t.id@) {
                            Some(p) => {
                                assert(p < v.len());
                            },
                            None => {},
                        }
                    }
                },
            }
        }
        if keep {
            out.push(t.clone());
            assert(out@ =~= old(out)@ + tracks@.take(i as int).filter(pred).push(tracks@[i as int]));
        }
        i = i + 1;
    }
    assert(tracks@.take(tracks@.len() as int) =~= tracks@);
}

/// `tracks` reordered to match the order of `ids`: the stable ordering by
/// the (last) position of each track's id among `ids`, tracks whose id is
/// not among them last.
pub fn order_by_ids(ids: &[TrackId], tracks: &[Track]) -> (r: Vec<Track>)
    ensures
        r@ == ordered_by_ids(id_values(ids@), tracks@),
{
    let ghost v = id_values(ids@);
    let mut out: Vec<Track> = Vec::new();
    let mut p: usize = 0;
    while p < ids.len()
        invariant
            p <= ids@.len(),
            v == id_values(ids@),
            out@ == ordered_below(v, tracks@, p as nat),
        decreases ids@.len() - p,
    {
        if is_last_occurrence(ids, p) {
            push_tracks_with_key(&mut out, tracks, ids, p, Some(ids[p].value()));
        } else {
            proof {
                lemma_no_track_has_key(v, tracks@, p as int);
            }
        }
        p = p + 1;
    }
    push_tracks_with_key(&mut out, tracks, ids, usize::MAX, None);
    out
}

/// No track has the key of a position that is not its id's last one.
proof fn lemma_no_track_has_key(ids: Seq<i64>, tracks: Seq<Track>, p: int)
    requires
        0 <= p < ids.len() <= usize::MAX,
        last_position(ids, ids[p]) != Some(p as nat),
    ensures
        tracks.filter(key_is(ids, p)) == Seq::<Track>::empty(),
{
    broadcast use vstd::seq_lib::group_filter_ensures;

    let f = tracks.filter(key_is(ids, p));
    if f.len() > 0 {
        let t = f[0];
        assert(key_is(ids, p)(t));
        lemma_last_position(ids, t.id@);
        assert(last_position(ids, t.id@) == Some(p as nat));
        lemma_last_position(ids, ids[p]);
        assert(ids[p] == t.id@);
    }
    assert(f =~= Seq::<Track>::empty());
}

/// How often `x` occurs among the tracks `pred` keeps.
proof fn lemma_filter_count(s: Seq<Track>, pred: spec_fn(Track) -> bool, x: Track)
    ensures
        s.filter(pred).to_multiset().count(x) == if pred(x) {
            s.to_multiset().count(x)
        } else {
            0
        },
    decreases s.len(),
{
    broadcast use vstd::seq_lib::group_to_multiset_ensures;
    broadcast use vstd::multiset::group_multiset_axioms;

    reveal(Seq::filter);
    if s.len() == 0 {
        assert(s.filter(pred) =~= s);
    } else {
        let init = s.drop_last();
        lemma_filter_count(init, pred, x);
        assert(s =~= init.push(s.last()));
    }
}

/// How often `x` occurs among the tracks ordered below `n`: as often as in
/// `tracks` when its key is below `n`, else never.
proof fn lemma_ordered_below_count(ids: Seq<i64>, tracks: Seq<Track>, n: nat, x: Track)
    ensures
        ordered_below(ids, tracks, n).to_multiset().count(x) == if id_key(ids, x.id@) < n {
            tracks.to_multiset().count(x)
        } else {
            0
        },
    decreases n,
{
    broadcast use vstd::multiset::group_multiset_axioms;
    broadcast use vstd::seq_lib::group_to_multiset_ensures;

    lemma_last_position(ids, x.id@);
    if n == 0 {
        assert(ordered_below(ids, tracks, 0) =~= Seq::<Track>::empty());
    } else {
        let m: nat = (n - 1) as nat;
        lemma_ordered_below_count(ids, tracks, m, x);
        lemma_filter_count(tracks, key_is(ids, m as int), x);
        vstd::seq_lib::lemma_multiset_commutative(
            ordered_below(ids, tracks, m),
            tracks.filter(key_is(ids, m as int)),
        );
    }
}

/// The keys of the tracks ordered below `n` are below `n`, and never fall.
proof fn lemma_ordered_below_sorted(ids: Seq<i64>, tracks: Seq<Track>, n: nat)
    ensures
        forall|i: int|
            0 <= i < ordered_below(ids, tracks, n).len() ==> 0 <= id_key(
                ids,
                #[trigger] ordered_below(ids, tracks, n)[i].id@,
            ) < n,
        forall|a: int, b: int|
            0 <= a < b < ordered_below(ids, tracks, n).len() ==> id_key(
                ids,
                #[trigger] ordered_below(ids, tracks, n)[a].id@,
            ) <= id_key(ids, #[trigger] ordered_below(ids, tracks, n)[b].id@),
    decreases n,
{
    broadcast use vstd::seq_lib::group_filter_ensures;

    if n > 0 {
        let m: nat = (n - 1) as nat;
        lemma_ordered_below_sorted(ids, tracks, m);
        let front = ordered_below(ids, tracks, m);
        let back = tracks.filter(key_is(ids, m as int));
        let all = ordered_below(ids, tracks, n);
        assert(all == front + back);
        assert forall|i: int| 0 <= i < back.len() implies id_key(ids, #[trigger] back[i].id@)
            == m by {
            assert(key_is(ids, m as int)(back[i]));
        }
        assert forall|i: int| 0 <= i < all.len() implies 0 <= id_key(
            ids,
            #[trigger] all[i].id@,
        ) < n by {
            if i < front.len() {
                assert(all[i] == front[i]);
            } else {
                assert(all[i] == back[i - front.len()]);
            }
            lemma_last_position(ids, all[i].id@);
        }
        assert forall|a: int, b: int| 0 <= a < b < all.len() implies id_key(
            ids,
            #[trigger] all[a].id@,
        ) <= id_key(ids, #[trigger] all[b].id@) by {
            if b < front.len() {
                assert(all[a] == front[a] && all[b] == front[b]);
            } else if a < front.len() {
                assert(all[a] == front[a] && all[b] == back[b - front.len()]);
            } else {
                assert(all[a] == back[a - front.len()] && all[b] == back[b - front.len()]);
            }
        }
    }
}

/// Tracks fetched by id come in the order of the ids: every track whose id
/// is among `ids` comes before every track whose id is not, and of two
/// tracks the one whose id sits (last) earlier among `ids` comes first.
pub proof fn law_fetched_tracks_follow_ids(ids: Seq<i64>, tracks: Seq<Track>)
    requires
        ids.len() <= usize::MAX,
    ensures
        forall|a: int, b: int|
            0 <= a < b < ordered_by_ids(ids, tracks).len() ==> id_key(
                ids,
                #[trigger] ordered_by_ids(ids, tracks)[a].id@,
            ) <= id_key(ids, #[trigger] ordered_by_ids(ids, tracks)[b].id@),
{
    broadcast use vstd::seq_lib::group_filter_ensures;

    let n: nat = ids.len();
    lemma_ordered_below_sorted(ids, tracks, n);
    let front = ordered_below(ids, tracks, n);
    let back = tracks.filter(key_is(ids, usize::MAX as int));
    let all = ordered_by_ids(ids, tracks);
    assert forall|a: int, b: int| 0 <= a < b < all.len() implies id_key(
        ids,
        #[trigger] all[a].id@,
    ) <= id_key(ids, #[trigger] all[b].id@) by {
        if b < front.len() {
            assert(all[a] == front[a] && all[b] == front[b]);
        } else if a < front.len() {
            assert(all[a] == front[a] && all[b] == back[b - front.len()]);
            assert(key_is(ids, usize::MAX as int)(back[b - front.len()]));
        } else {
            assert(all[a] == back[a - front.len()] && all[b] == back[b - front.len()]);
            assert(key_is(ids, usize::MAX as int)(back[a - front.len()]));
            assert(key_is(ids, usize::MAX as int)(back[b - front.len()]));
        }
    }
}

/// Ordering tracks by id neither loses nor adds a track: the result holds
/// each track exactly as often as `tracks` does.
pub proof fn law_fetched_tracks_are_a_permutation(ids: Seq<i64>, tracks: Seq<Track>)
    requires
        ids.len() <= usize::MAX,
    ensures
        ordered_by_ids(ids, tracks).to_multiset() =~= tracks.to_multiset(),
{
    broadcast use vstd::multiset::group_multiset_axioms;

    let n: nat = ids.len();
    let front = ordered_below(ids, tracks, n);
    let back = tracks.filter(key_is(ids, usize::MAX as int));
    vstd::seq_lib::lemma_multiset_commutative(front, back);
    assert forall|x: Track| #[trigger] ordered_by_ids(ids, tracks).to_multiset().count(x)
        == tracks.to_multiset().count(x) by {
        lemma_ordered_below_count(ids, tracks, n, x);
        lemma_filter_count(tracks, key_is(ids, usize::MAX as int), x);
        lemma_last_position(ids, x.id@);
    }
}

} // verus!
