//! Audio-file tags: reading a track's fields out of a parsed tag, and
//! writing them back into one. The tag itself is `lofty`'s; reading and
//! saving the file is left to the caller.
use vstd::prelude::*;

use lofty::picture::Picture;
use lofty::picture::PictureType;
use lofty::tag::Accessor;
use lofty::tag::ItemKey;
use lofty::tag::Tag;
use lofty::tag::items::Timestamp;

use crate::text::decimal;
use crate::text::decimal_padded;
use crate::text::lemma_decimal_parses;
use crate::text::owned;
use crate::text::parse_int;
use crate::text::trim;
use crate::track::AlbumArtData;
use crate::track::AlbumTitle;
use crate::track::Artist;
use crate::track::Composer;
use crate::track::DiscNumber;
use crate::track::Genre;
use crate::track::Title;
use crate::track::Track;
use crate::track::TrackDuration;
use crate::track::TrackId;
use crate::track::TrackNumber;
use crate::track::TrackPath;
use crate::track::Year;

verus! {

broadcast use vstd::string::group_string_axioms;

/// `lofty::tag::Tag`, a format-independent tag: opaque here, and known only
/// through the names below and the contracts of the wrappers that read and
/// write it.
#[verifier::external_type_specification]
#[verifier::external_body]
pub struct ExTag(Tag);

/// The tag fields the library reads and writes.
#[derive(Debug, Clone, Copy, PartialEq, Eq, Structural)]
pub enum TagField {
    Title,
    Artist,
    Album,
    Genre,
    AlbumArtist,
    Composer,
    TrackNumber,
    DiscNumber,
    RecordingDate,
    Year,
}

/// The fields the library addresses by item key rather than by a named
/// accessor.
#[derive(Debug, Clone, Copy, PartialEq, Eq, Structural)]
pub enum KeyedField {
    AlbumArtist,
    Composer,
}

/// The tag field of `k`.
pub open spec fn keyed(k: KeyedField) -> TagField {
    match k {
        KeyedField::AlbumArtist => TagField::AlbumArtist,
        KeyedField::Composer => TagField::Composer,
    }
}

/// The text a tag holds per field: what reading the field as a string gives
/// (the first item of that key, when it is text).
pub uninterp spec fn tag_text(tag: Tag) -> Map<TagField, Seq<char>>;

/// The fields the tag's format can store; writing any other field is
/// dropped.
pub uninterp spec fn tag_accepts(tag: Tag) -> Set<TagField>;

/// The data of the tag's embedded pictures, in order.
pub uninterp spec fn tag_pictures(tag: Tag) -> Seq<Seq<u8>>;

/// The type codes (`PictureType::as_u8`) of the tag's embedded pictures, in
/// order.
pub uninterp spec fn tag_picture_types(tag: Tag) -> Seq<u8>;

/// The tag's items whose keys are none of the fields the library manages
/// (comments, replaygain and the like), in order: each as the name of its
/// key and the bytes of its value.
pub uninterp spec fn tag_other_items(tag: Tag) -> Seq<(Seq<char>, Seq<u8>)>;

/// The type code of a picture role (`PictureType::as_u8`): 3 for a front
/// cover.
pub open spec fn role_code(role: PictureRole) -> u8 {
    match role {
        PictureRole::FrontCover => 3,
    }
}

/// The year of the timestamp `text` denotes, as `lofty`'s relaxed timestamp
/// parser reads it; `None` when it reads no timestamp.
pub uninterp spec fn timestamp_year(text: Seq<char>) -> Option<u16>;

/// The text stored for `f`, or `None`.
pub open spec fn text_of(m: Map<TagField, Seq<char>>, f: TagField) -> Option<Seq<char>> {
    if m.contains_key(f) {
        Some(m[f])
    } else {
        None
    }
}

/// The number stored for `f`, as `u32` parsing reads it.
pub open spec fn number_of(m: Map<TagField, Seq<char>>, f: TagField) -> Option<u32> {
    if m.contains_key(f) {
        match parse_int(m[f], false, 0, u32::MAX as int) {
            Some(n) => Some(n as u32),
            None => None,
        }
    } else {
        None
    }
}

/// The year of the tag's date: its recording date, else its year field.
pub open spec fn date_year_of(m: Map<TagField, Seq<char>>) -> Option<u16> {
    if m.contains_key(TagField::RecordingDate) {
        timestamp_year(m[TagField::RecordingDate])
    } else if m.contains_key(TagField::Year) {
        timestamp_year(m[TagField::Year])
    } else {
        None
    }
}

/// Inserting a text item: it replaces every item of its field, if the
/// format accepts the field.
pub open spec fn inserted(
    m: Map<TagField, Seq<char>>,
    accepts: Set<TagField>,
    f: TagField,
    v: Seq<char>,
) -> Map<TagField, Seq<char>> {
    if accepts.contains(f) {
        m.insert(f, v)
    } else {
        m
    }
}

/// What a text mutation leaves alone: the accepted fields, the pictures and
/// their types, and every item of a field the library does not manage.
pub open spec fn same_frame(before: Tag, after: Tag) -> bool {
    &&& tag_accepts(after) == tag_accepts(before)
    &&& tag_pictures(after) == tag_pictures(before)
    &&& tag_picture_types(after) == tag_picture_types(before)
    &&& tag_other_items(after) == tag_other_items(before)
}

// ---------------------------------------------------------------------------
// Reading

/// The title (`Accessor::title`).
#[verifier::external_body]
fn tag_title(tag: &Tag) -> (r: Option<String>)
    ensures
        r matches Some(s) ==> text_of(tag_text(*tag), TagField::Title) == Some(s@),
        r is None ==> text_of(tag_text(*tag), TagField::Title) is None,
{
    tag.title().map(|s| s.into_owned())
}

/// The artist (`Accessor::artist`).
#[verifier::external_body]
fn tag_artist(tag: &Tag) -> (r: Option<String>)
    ensures
        r matches Some(s) ==> text_of(tag_text(*tag), TagField::Artist) == Some(s@),
        r is None ==> text_of(tag_text(*tag), TagField::Artist) is None,
{
    tag.artist().map(|s| s.into_owned())
}

/// The album (`Accessor::album`).
#[verifier::external_body]
fn tag_album(tag: &Tag) -> (r: Option<String>)
    ensures
        r matches Some(s) ==> text_of(tag_text(*tag), TagField::Album) == Some(s@),
        r is None ==> text_of(tag_text(*tag), TagField::Album) is None,
{
    tag.album().map(|s| s.into_owned())
}

/// The genre (`Accessor::genre`).
#[verifier::external_body]
fn tag_genre(tag: &Tag) -> (r: Option<String>)
    ensures
        r matches Some(s) ==> text_of(tag_text(*tag), TagField::Genre) == Some(s@),
        r is None ==> text_of(tag_text(*tag), TagField::Genre) is None,
{
    tag.genre().map(|s| s.into_owned())
}

/// The text of a keyed field (`Tag::get_string`).
#[verifier::external_body]
fn tag_get_string(tag: &Tag, key: KeyedField) -> (r: Option<String>)
    ensures
        r matches Some(s) ==> text_of(tag_text(*tag), keyed(key)) == Some(s@),
        r is None ==> text_of(tag_text(*tag), keyed(key)) is None,
{
    let key = match key {
        KeyedField::AlbumArtist => ItemKey::AlbumArtist,
        KeyedField::Composer => ItemKey::Composer,
    };
    tag.get_string(key).map(|s| s.to_string())
}

/// The track number (`Accessor::track`): the track-number text parsed as a
/// `u32`.
#[verifier::external_body]
fn tag_track(tag: &Tag) -> (r: Option<u32>)
    ensures
        r == number_of(tag_text(*tag), TagField::TrackNumber),
{
    tag.track()
}

/// The disc number (`Accessor::disk`): the disc-number text parsed as a
/// `u32`.
#[verifier::external_body]
fn tag_disk(tag: &Tag) -> (r: Option<u32>)
    ensures
        r == number_of(tag_text(*tag), TagField::DiscNumber),
{
    tag.disk()
}

/// The year of the tag's date (`Accessor::date`): the recording date, else
/// the year field, read as a timestamp.
#[verifier::external_body]
fn tag_date_year(tag: &Tag) -> (r: Option<u16>)
    ensures
        r == date_year_of(tag_text(*tag)),
{
    tag.date().map(|ts| ts.year)
}

/// The data of the first embedded picture (`Tag::pictures`).
#[verifier::external_body]
fn tag_first_picture(tag: &Tag) -> (r: Option<Vec<u8>>)
    ensures
        r matches Some(d) ==> tag_pictures(*tag).len() > 0 && d@ == tag_pictures(*tag)[0],
        r is None ==> tag_pictures(*tag).len() == 0,
{
    tag.pictures().first().map(|p| p.data().to_vec())
}

/// How many pictures are embedded (`Tag::pictures`).
#[verifier::external_body]
fn tag_picture_count(tag: &Tag) -> (r: usize)
    ensures
        r == tag_pictures(*tag).len(),
        r == tag_picture_types(*tag).len(),
{
    tag.pictures().len()
}

// ---------------------------------------------------------------------------
// Writing

/// Sets the title (`Accessor::set_title`).
#[verifier::external_body]
fn tag_set_title(tag: &mut Tag, value: String)
    ensures
        same_frame(*old(tag), *final(tag)),
        tag_text(*final(tag)) == inserted(
            tag_text(*old(tag)),
            tag_accepts(*old(tag)),
            TagField::Title,
            value@,
        ),
{
    tag.set_title(value)
}

/// Removes the title (`Accessor::remove_title`).
#[verifier::external_body]
fn tag_remove_title(tag: &mut Tag)
    ensures
        same_frame(*old(tag), *final(tag)),
        tag_text(*final(tag)) == tag_text(*old(tag)).remove(TagField::Title),
{
    tag.remove_title()
}

/// Sets the artist (`Accessor::set_artist`).
#[verifier::external_body]
fn tag_set_artist(tag: &mut Tag, value: String)
    ensures
        same_frame(*old(tag), *final(tag)),
        tag_text(*final(tag)) == inserted(
            tag_text(*old(tag)),
            tag_accepts(*old(tag)),
            TagField::Artist,
            value@,
        ),
{
    tag.set_artist(value)
}

/// Removes the artist (`Accessor::remove_artist`).
#[verifier::external_body]
fn tag_remove_artist(tag: &mut Tag)
    ensures
        same_frame(*old(tag), *final(tag)),
        tag_text(*final(tag)) == tag_text(*old(tag)).remove(TagField::Artist),
{
    tag.remove_artist()
}

/// Sets the album (`Accessor::set_album`).
#[verifier::external_body]
fn tag_set_album(tag: &mut Tag, value: String)
    ensures
        same_frame(*old(tag), *final(tag)),
        tag_text(*final(tag)) == inserted(
            tag_text(*old(tag)),
            tag_accepts(*old(tag)),
            TagField::Album,
            value@,
        ),
{
    tag.set_album(value)
}

/// Removes the album (`Accessor::remove_album`).
#[verifier::external_body]
fn tag_remove_album(tag: &mut Tag)
    ensures
        same_frame(*old(tag), *final(tag)),
        tag_text(*final(tag)) == tag_text(*old(tag)).remove(TagField::Album),
{
    tag.remove_album()
}

/// Sets the genre (`Accessor::set_genre`).
#[verifier::external_body]
fn tag_set_genre(tag: &mut Tag, value: String)
    ensures
        same_frame(*old(tag), *final(tag)),
        tag_text(*final(tag)) == inserted(
            tag_text(*old(tag)),
            tag_accepts(*old(tag)),
            TagField::Genre,
            value@,
        ),
{
    tag.set_genre(value)
}

/// Removes the genre (`Accessor::remove_genre`).
#[verifier::external_body]
fn tag_remove_genre(tag: &mut Tag)
    ensures
        same_frame(*old(tag), *final(tag)),
        tag_text(*final(tag)) == tag_text(*old(tag)).remove(TagField::Genre),
{
    tag.remove_genre()
}

/// Inserts a text item for a keyed field (`Tag::insert_text`); the result
/// says whether the format accepted it.
#[verifier::external_body]
fn tag_insert_text(tag: &mut Tag, key: KeyedField, value: String) -> (r: bool)
    ensures
        r == tag_accepts(*old(tag)).contains(keyed(key)),
        same_frame(*old(tag), *final(tag)),
        tag_text(*final(tag)) == inserted(
            tag_text(*old(tag)),
            tag_accepts(*old(tag)),
            keyed(key),
            value@,
        ),
{
    let key = match key {
        KeyedField::AlbumArtist => ItemKey::AlbumArtist,
        KeyedField::Composer => ItemKey::Composer,
    };
    tag.insert_text(key, value)
}

/// Removes every item of a keyed field (`Tag::remove_key`).
#[verifier::external_body]
fn tag_remove_key(tag: &mut Tag, key: KeyedField)
    ensures
        same_frame(*old(tag), *final(tag)),
        tag_text(*final(tag)) == tag_text(*old(tag)).remove(keyed(key)),
{
    let key = match key {
        KeyedField::AlbumArtist => ItemKey::AlbumArtist,
        KeyedField::Composer => ItemKey::Composer,
    };
    tag.remove_key(key)
}

/// Sets the track number (`Accessor::set_track`), stored as its decimal
/// text.
#[verifier::external_body]
fn tag_set_track(tag: &mut Tag, value: u32)
    ensures
        same_frame(*old(tag), *final(tag)),
        tag_text(*final(tag)) == inserted(
            tag_text(*old(tag)),
            tag_accepts(*old(tag)),
            TagField::TrackNumber,
            decimal(value as nat),
        ),
{
    tag.set_track(value)
}

/// Removes the track number (`Accessor::remove_track`).
#[verifier::external_body]
fn tag_remove_track(tag: &mut Tag)
    ensures
        same_frame(*old(tag), *final(tag)),
        tag_text(*final(tag)) == tag_text(*old(tag)).remove(TagField::TrackNumber),
{
    tag.remove_track()
}

/// Sets the disc number (`Accessor::set_disk`), stored as its decimal text.
#[verifier::external_body]
fn tag_set_disk(tag: &mut Tag, value: u32)
    ensures
        same_frame(*old(tag), *final(tag)),
        tag_text(*final(tag)) == inserted(
            tag_text(*old(tag)),
            tag_accepts(*old(tag)),
            TagField::DiscNumber,
            decimal(value as nat),
        ),
{
    tag.set_disk(value)
}

/// Removes the disc number (`Accessor::remove_disk`).
#[verifier::external_body]
fn tag_remove_disk(tag: &mut Tag)
    ensures
        same_frame(*old(tag), *final(tag)),
        tag_text(*final(tag)) == tag_text(*old(tag)).remove(TagField::DiscNumber),
{
    tag.remove_disk()
}

/// Sets the date to the year `year` alone (`Accessor::set_date`): the year
/// field is dropped and the recording date stored as the year's four-digit
/// text, which the timestamp parser reads back as that year.
#[verifier::external_body]
fn tag_set_date_year(tag: &mut Tag, year: u16)
    ensures
        same_frame(*old(tag), *final(tag)),
        tag_text(*final(tag)) == inserted(
            tag_text(*old(tag)).remove(TagField::Year),
            tag_accepts(*old(tag)),
            TagField::RecordingDate,
            decimal_padded(year as nat, 4),
        ),
        tag_accepts(*old(tag)).contains(TagField::RecordingDate) && year <= 9999
            ==> timestamp_year(tag_text(*final(tag))[TagField::RecordingDate]) == Some(year),
{
    tag.set_date(Timestamp { year, ..Timestamp::default() })
}

/// Removes the date: both the year and the recording date
/// (`Accessor::remove_date`).
#[verifier::external_body]
fn tag_remove_date(tag: &mut Tag)
    ensures
        same_frame(*old(tag), *final(tag)),
        tag_text(*final(tag)) == tag_text(*old(tag)).remove(TagField::Year).remove(
            TagField::RecordingDate,
        ),
{
    tag.remove_date()
}

/// The role of an embedded picture.
#[derive(Debug, Clone, Copy, PartialEq, Eq, Structural)]
pub enum PictureRole {
    FrontCover,
}

/// Embeds a picture holding `data` in the role `role` (`Tag::push_picture`).
#[verifier::external_body]
fn tag_push_picture(tag: &mut Tag, data: &[u8], role: PictureRole)
    ensures
        tag_text(*final(tag)) == tag_text(*old(tag)),
        tag_accepts(*final(tag)) == tag_accepts(*old(tag)),
        tag_pictures(*final(tag)) == tag_pictures(*old(tag)).push(data@),
        tag_picture_types(*final(tag)) == tag_picture_types(*old(tag)).push(role_code(role)),
        tag_other_items(*final(tag)) == tag_other_items(*old(tag)),
{
    let pic_type = match role {
        PictureRole::FrontCover => PictureType::CoverFront,
    };
    tag.push_picture(Picture::unchecked(data.to_vec()).pic_type(pic_type).build())
}

/// Removes the picture at `index` (`Tag::remove_picture`).
#[verifier::external_body]
fn tag_remove_picture(tag: &mut Tag, index: usize)
    requires
        index < tag_pictures(*old(tag)).len(),
        index < tag_picture_types(*old(tag)).len(),
    ensures
        tag_text(*final(tag)) == tag_text(*old(tag)),
        tag_accepts(*final(tag)) == tag_accepts(*old(tag)),
        tag_pictures(*final(tag)) == tag_pictures(*old(tag)).remove(index as int),
        tag_picture_types(*final(tag)) == tag_picture_types(*old(tag)).remove(index as int),
        tag_other_items(*final(tag)) == tag_other_items(*old(tag)),
{
    tag.remove_picture(index);
}

// ---------------------------------------------------------------------------
// The library's tag logic

/// A text field written from `value`: an empty value removes the field
/// rather than storing an empty one.
pub open spec fn text_written(
    m: Map<TagField, Seq<char>>,
    accepts: Set<TagField>,
    f: TagField,
    value: Seq<char>,
) -> Map<TagField, Seq<char>> {
    if value.len() == 0 {
        m.remove(f)
    } else {
        inserted(m, accepts, f, value)
    }
}

/// A number field written from `n`: zero (unknown) removes the field.
pub open spec fn number_written(
    m: Map<TagField, Seq<char>>,
    accepts: Set<TagField>,
    f: TagField,
    n: nat,
) -> Map<TagField, Seq<char>> {
    if n == 0 {
        m.remove(f)
    } else {
        inserted(m, accepts, f, decimal(n))
    }
}

/// The date written from `year`: zero (unknown) removes the date; any
/// other year replaces it with that year alone.
pub open spec fn year_written(
    m: Map<TagField, Seq<char>>,
    accepts: Set<TagField>,
    year: nat,
) -> Map<TagField, Seq<char>> {
    if year == 0 {
        m.remove(TagField::Year).remove(TagField::RecordingDate)
    } else {
        inserted(m.remove(TagField::Year), accepts, TagField::RecordingDate, decimal_padded(year, 4))
    }
}

/// The tag text after writing `track`'s fields into text `m`, in the order
/// they are written.
pub open spec fn fields_written(
    m: Map<TagField, Seq<char>>,
    a: Set<TagField>,
    track: Track,
) -> Map<TagField, Seq<char>> {
    let m1 = text_written(m, a, TagField::Title, track.title@);
    let m2 = text_written(m1, a, TagField::Artist, track.artist@);
    let m3 = text_written(m2, a, TagField::Album, track.album@);
    let m4 = text_written(m3, a, TagField::Genre, track.genre@);
    let m5 = text_written(m4, a, TagField::AlbumArtist, track.album_artist@);
    let m6 = text_written(m5, a, TagField::Composer, track.composer@);
    let m7 = number_written(m6, a, TagField::TrackNumber, track.track_number@ as nat);
    let m8 = number_written(m7, a, TagField::DiscNumber, track.disc_number@ as nat);
    year_written(m8, a, track.year@ as nat)
}

/// What `apply_fields` leaves behind in `after`, from `before` and `track`.
pub open spec fn applied(before: Tag, after: Tag, track: Track) -> bool {
    &&& same_frame(before, after)
    &&& tag_text(after) == fields_written(tag_text(before), tag_accepts(before), track)
    &&& tag_accepts(before).contains(TagField::RecordingDate) && 0 < track.year@ <= 9999
        ==> timestamp_year(tag_text(after)[TagField::RecordingDate]) == Some(track.year@)
}

/// Sets `tag`'s common fields from `track`. Unknown domain values (empty
/// string / zero) remove the corresponding field rather than writing an
/// empty one, so an untagged field doesn't turn into a stored-empty frame.
pub fn apply_fields(tag: &mut Tag, track: &Track)
    ensures
        applied(*old(tag), *final(tag), *track),
{
    let ghost a = tag_accepts(*tag);
    let ghost start = *tag;
    let title = track.title.as_str();
    if title.is_empty() {
        tag_remove_title(tag);
    } else {
        tag_set_title(tag, owned(title));
    }
    let artist = track.artist.as_str();
    if artist.is_empty() {
        tag_remove_artist(tag);
    } else {
        tag_set_artist(tag, owned(artist));
    }
    let album = track.album.as_str();
    if album.is_empty() {
        tag_remove_album(tag);
    } else {
        tag_set_album(tag, owned(album));
    }
    let genre = track.genre.as_str();
    if genre.is_empty() {
        tag_remove_genre(tag);
    } else {
        tag_set_genre(tag, owned(genre));
    }
    set_keyed(tag, KeyedField::AlbumArtist, track.album_artist.as_str());
    set_keyed(tag, KeyedField::Composer, track.composer.as_str());
    let number = track.track_number.value();
    if number == 0 {
        tag_remove_track(tag);
    } else {
        tag_set_track(tag, number);
    }
    let disc = track.disc_number.value();
    if disc == 0 {
        tag_remove_disk(tag);
    } else {
        tag_set_disk(tag, disc);
    }
    let ghost before_year = *tag;
    let year = track.year.value();
    if year == 0 {
        tag_remove_date(tag);
    } else {
        tag_set_date_year(tag, year);
    }
    assert(tag_accepts(before_year) == a);
}

/// Writes a keyed field from `value`, removing it when `value` is empty.
fn set_keyed(tag: &mut Tag, key: KeyedField, value: &str)
    ensures
        same_frame(*old(tag), *final(tag)),
        tag_text(*final(tag)) == text_written(
            tag_text(*old(tag)),
            tag_accepts(*old(tag)),
            keyed(key),
            value@,
        ),
{
    if value.is_empty() {
        tag_remove_key(tag, key);
    } else {
        tag_insert_text(tag, key, owned(value));
    }
}

/// What `set_cover` leaves behind in `after`, from `before` and the cover
/// `art`: one front cover holding `art` in place of every picture, and
/// everything else as it was.
pub open spec fn covered(before: Tag, after: Tag, art: Seq<u8>) -> bool {
    &&& tag_text(after) == tag_text(before)
    &&& tag_accepts(after) == tag_accepts(before)
    &&& tag_other_items(after) == tag_other_items(before)
    &&& tag_pictures(after) == seq![art]
    &&& tag_picture_types(after) == seq![role_code(PictureRole::FrontCover)]
}

/// Replaces every embedded picture of `tag` with one front cover holding
/// `art`; every other item of the tag stays as it was.
pub fn set_cover(tag: &mut Tag, art: &AlbumArtData)
    ensures
        covered(*old(tag), *final(tag), art@),
{
    while tag_picture_count(tag) > 0
        invariant
            tag_text(*tag) == tag_text(*old(tag)),
            tag_accepts(*tag) == tag_accepts(*old(tag)),
            tag_other_items(*tag) == tag_other_items(*old(tag)),
        decreases tag_pictures(*tag).len(),
    {
        tag_remove_picture(tag, 0);
    }
    tag_push_picture(tag, art.as_bytes(), PictureRole::FrontCover);
    assert(tag_pictures(*tag) =~= seq![art@]);
    assert(tag_picture_types(*tag) =~= seq![role_code(PictureRole::FrontCover)]);
}

/// A text field as the track model reads it: absent reads as empty.
pub open spec fn text_or_empty(t: Option<Map<TagField, Seq<char>>>, f: TagField) -> Seq<char> {
    match t {
        Some(m) => match text_of(m, f) {
            Some(s) => s,
            None => Seq::empty(),
        },
        None => Seq::empty(),
    }
}

/// A number field as the track model reads it: absent or unreadable reads
/// as 0 (unknown).
pub open spec fn number_or_zero(t: Option<Map<TagField, Seq<char>>>, f: TagField) -> u32 {
    match t {
        Some(m) => match number_of(m, f) {
            Some(n) => n,
            None => 0,
        },
        None => 0,
    }
}

/// The year as the track model reads it: absent or unreadable reads as 0.
pub open spec fn year_or_zero(t: Option<Map<TagField, Seq<char>>>) -> u16 {
    match t {
        Some(m) => match date_year_of(m) {
            Some(y) => y,
            None => 0,
        },
        None => 0,
    }
}

/// The text of the tag, if there is one.
pub open spec fn text_view(tag: Option<&Tag>) -> Option<Map<TagField, Seq<char>>> {
    match tag {
        Some(t) => Some(tag_text(*t)),
        None => None,
    }
}

/// What `track_from_tag` reads into `track` from the tag text `t`, for the
/// file at `path` whose audio runs `duration`.
pub open spec fn read_as(
    track: Track,
    path: TrackPath,
    t: Option<Map<TagField, Seq<char>>>,
    duration: TrackDuration,
) -> bool {
    &&& track.id@ == 0
    &&& track.path == path
    &&& track.title@ == trim(text_or_empty(t, TagField::Title))
    &&& track.artist@ == trim(text_or_empty(t, TagField::Artist))
    &&& track.album_artist@ == trim(text_or_empty(t, TagField::AlbumArtist))
    &&& track.album@ == trim(text_or_empty(t, TagField::Album))
    &&& track.genre@ == trim(text_or_empty(t, TagField::Genre))
    &&& track.composer@ == trim(text_or_empty(t, TagField::Composer))
    &&& track.track_number@ == number_or_zero(t, TagField::TrackNumber)
    &&& track.disc_number@ == number_or_zero(t, TagField::DiscNumber)
    &&& track.year@ == year_or_zero(t)
    &&& track.duration == duration
}

/// Reads `f` through `read`, empty when there is no tag or no such field.
fn text_or_default(tag: Option<&Tag>, f: TagField) -> (r: String)
    requires
        f == TagField::Title || f == TagField::Artist || f == TagField::Album || f
            == TagField::Genre || f == TagField::AlbumArtist || f == TagField::Composer,
    ensures
        r@ == text_or_empty(text_view(tag), f),
{
    match tag {
        None => String::new(),
        Some(t) => {
            let v = match f {
                TagField::Title => tag_title(t),
                TagField::Artist => tag_artist(t),
                TagField::Album => tag_album(t),
                TagField::Genre => tag_genre(t),
                TagField::AlbumArtist => tag_get_string(t, KeyedField::AlbumArtist),
                _ => tag_get_string(t, KeyedField::Composer),
            };
            match v {
                Some(s) => s,
                None => String::new(),
            }
        },
    }
}

/// Builds the track a file's tag describes, with `id` 0, and its first
/// embedded picture as cover art. `duration` is the file's audio length;
/// with no tag every field reads as unknown.
pub fn track_from_tag(path: &TrackPath, tag: Option<&Tag>, duration: TrackDuration) -> (r: (
    Track,
    Option<AlbumArtData>,
))
    ensures
        read_as(r.0, *path, text_view(tag), duration),
        match tag {
            Some(t) => match r.1 {
                Some(art) => tag_pictures(*t).len() > 0 && art@ == tag_pictures(*t)[0],
                None => tag_pictures(*t).len() == 0,
            },
            None => r.1 is None,
        },
{
    let title = text_or_default(tag, TagField::Title);
    let artist = text_or_default(tag, TagField::Artist);
    let album_artist = text_or_default(tag, TagField::AlbumArtist);
    let album = text_or_default(tag, TagField::Album);
    let genre = text_or_default(tag, TagField::Genre);
    let composer = text_or_default(tag, TagField::Composer);
    let (track_number, disc_number, year, art) = match tag {
        None => (0u32, 0u32, 0u16, None),
        Some(t) => {
            let n = match tag_track(t) {
                Some(n) => n,
                None => 0,
            };
            let d = match tag_disk(t) {
                Some(d) => d,
                None => 0,
            };
            let y = match tag_date_year(t) {
                Some(y) => y,
                None => 0,
            };
            let art = match tag_first_picture(t) {
                Some(data) => Some(AlbumArtData::new(data)),
                None => None,
            };
            (n, d, y, art)
        },
    };
    let track = Track {
        id: TrackId::new(0),
        path: path.clone(),
        title: Title::new(title.as_str()),
        artist: Artist::new(artist.as_str()),
        album_artist: Artist::new(album_artist.as_str()),
        album: AlbumTitle::new(album.as_str()),
        genre: Genre::new(genre.as_str()),
        composer: Composer::new(composer.as_str()),
        track_number: TrackNumber::new(track_number),
        disc_number: DiscNumber::new(disc_number),
        year: Year::new(year),
        duration,
    };
    (track, art)
}

/// Every field the library manages.
pub open spec fn managed_fields() -> Set<TagField> {
    set![
        TagField::Title,
        TagField::Artist,
        TagField::Album,
        TagField::Genre,
        TagField::AlbumArtist,
        TagField::Composer,
        TagField::TrackNumber,
        TagField::DiscNumber,
        TagField::RecordingDate,
    ]
}

/// What is written is what is read: once a track's fields are applied to a
/// tag whose format stores every managed field, reading the tag gives back
/// the track's title, artists, album, genre, composer, numbers and year
/// (a year of at most four digits).
pub proof fn law_applied_fields_read_back(before: Tag, after: Tag, track: Track)
    requires
        applied(before, after, track),
        managed_fields().subset_of(tag_accepts(before)),
        track.year@ <= 9999,
        crate::text::is_trimmed(track.title@),
        crate::text::is_trimmed(track.artist@),
        crate::text::is_trimmed(track.album_artist@),
        crate::text::is_trimmed(track.album@),
        crate::text::is_trimmed(track.genre@),
        crate::text::is_trimmed(track.composer@),
    ensures
        ({
            let t = Some(tag_text(after));
            &&& trim(text_or_empty(t, TagField::Title)) == track.title@
            &&& trim(text_or_empty(t, TagField::Artist)) == track.artist@
            &&& trim(text_or_empty(t, TagField::AlbumArtist)) == track.album_artist@
            &&& trim(text_or_empty(t, TagField::Album)) == track.album@
            &&& trim(text_or_empty(t, TagField::Genre)) == track.genre@
            &&& trim(text_or_empty(t, TagField::Composer)) == track.composer@
            &&& number_or_zero(t, TagField::TrackNumber) == track.track_number@
            &&& number_or_zero(t, TagField::DiscNumber) == track.disc_number@
            &&& year_or_zero(t) == track.year@
        }),
{
    let a = tag_accepts(before);
    assert(a.contains(TagField::Title));
    assert(a.contains(TagField::Artist));
    assert(a.contains(TagField::Album));
    assert(a.contains(TagField::Genre));
    assert(a.contains(TagField::AlbumArtist));
    assert(a.contains(TagField::Composer));
    assert(a.contains(TagField::TrackNumber));
    assert(a.contains(TagField::DiscNumber));
    assert(a.contains(TagField::RecordingDate));
    lemma_trimmed_is_fixed(track.title@);
    lemma_trimmed_is_fixed(track.artist@);
    lemma_trimmed_is_fixed(track.album_artist@);
    lemma_trimmed_is_fixed(track.album@);
    lemma_trimmed_is_fixed(track.genre@);
    lemma_trimmed_is_fixed(track.composer@);
    lemma_trimmed_is_fixed(Seq::empty());
    lemma_decimal_parses(track.track_number@ as nat);
    lemma_decimal_parses(track.disc_number@ as nat);
}

/// Trimming a trimmed text changes nothing.
proof fn lemma_trimmed_is_fixed(s: Seq<char>)
    requires
        crate::text::is_trimmed(s),
    ensures
        trim(s) == s,
{
    if s.len() > 0 {
        assert(crate::text::trim_start(s) == s);
        assert(crate::text::trim_end(s) == s);
    }
}

/// Writing a track keeps the tag data the library does not manage
/// (comments, replaygain and the like): applying its fields keeps every such
/// item and every picture; replacing the cover keeps those items too and
/// leaves exactly one picture, a front cover holding the new art.
pub proof fn law_untouched_tag_data_survives(
    before: Tag,
    applied_to: Tag,
    covered_to: Tag,
    track: Track,
    art: Seq<u8>,
)
    requires
        applied(before, applied_to, track),
        covered(applied_to, covered_to, art),
    ensures
        tag_other_items(applied_to) == tag_other_items(before),
        tag_pictures(applied_to) == tag_pictures(before),
        tag_picture_types(applied_to) == tag_picture_types(before),
        tag_other_items(covered_to) == tag_other_items(before),
        tag_pictures(covered_to) == seq![art],
        tag_picture_types(covered_to) == seq![role_code(PictureRole::FrontCover)],
{
}

} // verus!
