use lofty::prelude::ItemKey;
use lofty::tag::Accessor;
use lofty::tag::Tag;
use lofty::tag::TagType;
use lofty::tag::items::Timestamp;
use musicplayer_rs::metadata::apply_fields;
use musicplayer_rs::metadata::set_cover;
use musicplayer_rs::metadata::track_from_tag;
use musicplayer_rs::track::AlbumArtData;
use musicplayer_rs::track::AlbumTitle;
use musicplayer_rs::track::Artist;
use musicplayer_rs::track::Composer;
use musicplayer_rs::track::DiscNumber;
use musicplayer_rs::track::Genre;
use musicplayer_rs::track::Title;
use musicplayer_rs::track::Track;
use musicplayer_rs::track::TrackDuration;
use musicplayer_rs::track::TrackId;
use musicplayer_rs::track::TrackNumber;
use musicplayer_rs::track::TrackPath;
use musicplayer_rs::track::Year;

fn geogaddi_roygbiv() -> Track {
    Track {
        id: TrackId::new(1),
        path: TrackPath::new("/music/boc/geogaddi/roygbiv.flac").unwrap(),
        title: Title::new("Roygbiv"),
        artist: Artist::new("Boards of Canada"),
        album_artist: Artist::new("Boards of Canada"),
        album: AlbumTitle::new("Geogaddi"),
        genre: Genre::new("Electronic"),
        composer: Composer::new("Michael Sandison"),
        track_number: TrackNumber::new(7),
        disc_number: DiscNumber::new(1),
        year: Year::new(2002),
        duration: TrackDuration::from_secs(193),
    }
}

#[test]
fn apply_fields_sets_the_accessor_fields() {
    let mut tag = Tag::new(TagType::Id3v2);
    apply_fields(&mut tag, &geogaddi_roygbiv());

    assert_eq!(tag.title().as_deref(), Some("Roygbiv"));
    assert_eq!(tag.artist().as_deref(), Some("Boards of Canada"));
    assert_eq!(tag.album().as_deref(), Some("Geogaddi"));
    assert_eq!(tag.genre().as_deref(), Some("Electronic"));
    assert_eq!(tag.track(), Some(7));
    assert_eq!(tag.disk(), Some(1));
    assert_eq!(tag.date().map(|ts| ts.year), Some(2002));
}

#[test]
fn apply_fields_sets_the_item_key_fields() {
    let mut tag = Tag::new(TagType::Id3v2);
    apply_fields(&mut tag, &geogaddi_roygbiv());

    assert_eq!(tag.get_string(ItemKey::AlbumArtist), Some("Boards of Canada"));
    assert_eq!(tag.get_string(ItemKey::Composer), Some("Michael Sandison"));
}

#[test]
fn apply_fields_removes_the_title_key_for_an_unknown_title() {
    let mut tag = Tag::new(TagType::Id3v2);
    tag.set_title(String::from("Stale Title"));

    let track = Track {
        title: Title::new(""),
        ..geogaddi_roygbiv()
    };
    apply_fields(&mut tag, &track);

    assert_eq!(tag.title(), None);
}

#[test]
fn apply_fields_removes_the_track_number_key_for_an_unknown_track_number() {
    let mut tag = Tag::new(TagType::Id3v2);
    tag.set_track(7);

    let track = Track {
        track_number: TrackNumber::new(0),
        ..geogaddi_roygbiv()
    };
    apply_fields(&mut tag, &track);

    assert_eq!(tag.track(), None);
}

#[test]
fn apply_fields_removes_the_date_key_for_an_unknown_year() {
    let mut tag = Tag::new(TagType::Id3v2);
    tag.set_date(Timestamp {
        year: 2002,
        ..Timestamp::default()
    });

    let track = Track {
        year: Year::new(0),
        ..geogaddi_roygbiv()
    };
    apply_fields(&mut tag, &track);

    assert_eq!(tag.date(), None);
}

#[test]
fn apply_fields_removes_the_album_artist_key_for_an_unknown_album_artist() {
    let mut tag = Tag::new(TagType::Id3v2);
    tag.insert_text(ItemKey::AlbumArtist, String::from("Stale Artist"));

    let track = Track {
        album_artist: Artist::new(""),
        ..geogaddi_roygbiv()
    };
    apply_fields(&mut tag, &track);

    assert_eq!(tag.get_string(ItemKey::AlbumArtist), None);
}

#[test]
fn written_fields_read_back_as_the_track() {
    let mut tag = Tag::new(TagType::Id3v2);
    let written = geogaddi_roygbiv();
    apply_fields(&mut tag, &written);
    let (read, art) = track_from_tag(&written.path, Some(&tag), written.duration);
    assert_eq!(read.id, TrackId::new(0));
    assert_eq!(read.path, written.path);
    assert_eq!(read.title, written.title);
    assert_eq!(read.artist, written.artist);
    assert_eq!(read.album_artist, written.album_artist);
    assert_eq!(read.album, written.album);
    assert_eq!(read.genre, written.genre);
    assert_eq!(read.composer, written.composer);
    assert_eq!(read.track_number, written.track_number);
    assert_eq!(read.disc_number, written.disc_number);
    assert_eq!(read.year, written.year);
    assert_eq!(read.duration, written.duration);
    assert_eq!(art, None);
}

#[test]
fn a_missing_tag_reads_as_unknown_fields() {
    let path = TrackPath::new("/music/untagged.ogg").unwrap();
    let (track, art) = track_from_tag(&path, None, TrackDuration::from_millis(61_500));
    assert!(track.title.is_unknown());
    assert!(track.artist.is_unknown());
    assert!(track.album_artist.is_unknown());
    assert_eq!(track.album.as_str(), "");
    assert!(track.track_number.is_unknown());
    assert!(track.year.is_unknown());
    assert_eq!(track.duration.as_millis(), 61_500);
    assert_eq!(art, None);
}

#[test]
fn tag_values_are_trimmed_and_bad_numbers_read_as_unknown() {
    let mut tag = Tag::new(TagType::VorbisComments);
    tag.set_title(String::from("  Roygbiv  "));
    tag.insert_text(ItemKey::TrackNumber, String::from("seven"));
    tag.insert_text(ItemKey::Year, String::from("1998"));
    let path = TrackPath::new("/music/roygbiv.ogg").unwrap();
    let (track, _) = track_from_tag(&path, Some(&tag), TrackDuration::from_secs(1));
    assert_eq!(track.title.as_str(), "Roygbiv");
    assert!(track.track_number.is_unknown());
    assert_eq!(track.year.value(), 1998);
}

#[test]
fn set_cover_replaces_every_picture_with_the_art() {
    let mut tag = Tag::new(TagType::Id3v2);
    set_cover(&mut tag, &AlbumArtData::new(vec![1, 2, 3]));
    set_cover(&mut tag, &AlbumArtData::new(vec![9, 8]));
    assert_eq!(tag.pictures().len(), 1);
    let path = TrackPath::new("/music/cover.mp3").unwrap();
    let (_, art) = track_from_tag(&path, Some(&tag), TrackDuration::from_secs(1));
    assert_eq!(art.unwrap().as_bytes(), &[9u8, 8][..]);
}

#[test]
fn writing_a_track_keeps_untouched_items_and_stores_a_front_cover() {
    let mut tag = Tag::new(TagType::Id3v2);
    tag.insert_text(ItemKey::Comment, "ripped from vinyl".to_string());
    apply_fields(&mut tag, &geogaddi_roygbiv());
    assert_eq!(tag.get_string(ItemKey::Comment), Some("ripped from vinyl"));
    set_cover(&mut tag, &AlbumArtData::new(vec![4, 5]));
    assert_eq!(tag.get_string(ItemKey::Comment), Some("ripped from vinyl"));
    assert_eq!(tag.pictures().len(), 1);
    assert_eq!(tag.pictures()[0].pic_type(), lofty::picture::PictureType::CoverFront);
    assert_eq!(tag.pictures()[0].pic_type().as_u8(), 3);
}
