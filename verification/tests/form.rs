use musicplayer_rs::edit::Shared;
use musicplayer_rs::form::number_edit;
use musicplayer_rs::form::number_shared;
use musicplayer_rs::form::text_edit;
use musicplayer_rs::form::text_shared;
use musicplayer_rs::form::EditForm;
use musicplayer_rs::form::FieldInput;
use musicplayer_rs::track::AlbumTitle;
use musicplayer_rs::track::Artist;
use musicplayer_rs::track::Composer;
use musicplayer_rs::track::DiscNumber;
use musicplayer_rs::track::Genre;
use musicplayer_rs::track::Title;
use musicplayer_rs::track::Track;
use musicplayer_rs::track::TrackDuration;
use musicplayer_rs::track::TrackId;
use musicplayer_rs::track::TrackNumber;
use musicplayer_rs::track::TrackPath;
use musicplayer_rs::track::Year;

fn geogaddi(id: i64, title: &str, number: u32) -> Track {
    Track {
        id: TrackId::new(id),
        path: TrackPath::new(&format!("/music/boc/geogaddi/{id:02}.flac")).unwrap(),
        title: Title::new(title),
        artist: Artist::new("Boards of Canada"),
        album_artist: Artist::new(""),
        album: AlbumTitle::new("Geogaddi"),
        genre: Genre::new("Electronic"),
        composer: Composer::new(""),
        duration: TrackDuration::from_secs(120),
        track_number: TrackNumber::new(number),
        disc_number: DiscNumber::new(1),
        year: Year::new(2002),
    }
}

fn field(touched: bool, text: &str) -> FieldInput {
    FieldInput { touched, text: text.to_string() }
}

fn untouched_form() -> EditForm {
    EditForm {
        title: field(false, "Alpha and Omega"),
        artist: field(false, ""),
        album_artist: field(false, ""),
        album: field(false, "Geogaddi"),
        genre: field(false, ""),
        composer: field(false, ""),
        track_number: field(false, "3"),
        disc_number: field(false, ""),
        year: field(false, "2002"),
    }
}

#[test]
fn an_untouched_number_field_sets_nothing() {
    assert_eq!(number_edit(false, "12"), None);
    assert_eq!(number_edit(false, ""), None);
}

#[test]
fn a_cleared_number_field_sets_the_unknown_value() {
    assert_eq!(number_edit(true, ""), Some(0));
    assert_eq!(number_edit(true, "   "), Some(0));
}

#[test]
fn a_typed_number_is_read_and_a_typo_sets_nothing() {
    assert_eq!(number_edit(true, " 12 "), Some(12));
    assert_eq!(number_edit(true, "+7"), Some(7));
    assert_eq!(number_edit(true, "1x"), None);
    assert_eq!(number_edit(true, "-1"), None);
    assert_eq!(number_edit(true, "4294967296"), None);
    assert_eq!(number_edit(true, "4294967295"), Some(u32::MAX));
}

#[test]
fn a_text_field_sets_its_text_only_when_touched() {
    assert_eq!(text_edit(true, "Music Is Math"), Some("Music Is Math".to_string()));
    assert_eq!(text_edit(false, "Music Is Math"), None);
}

#[test]
fn an_untouched_form_is_the_empty_edit() {
    let edit = untouched_form().to_edit();
    assert!(edit.title.is_none());
    assert!(edit.album.is_none());
    assert!(edit.track_number.is_none());
    assert!(edit.year.is_none());
    let track = geogaddi(1, "Ready Lets Go", 1);
    assert_eq!(edit.apply(track.clone()), track);
}

#[test]
fn touched_fields_are_set_trimmed_and_numbers_parsed() {
    let mut form = untouched_form();
    form.title = field(true, "  Music Is Math ");
    form.genre = field(true, "");
    form.disc_number = field(true, "");
    form.year = field(true, "70000");
    form.track_number = field(true, "oops");
    let edit = form.to_edit();
    assert_eq!(edit.title.as_ref().map(|t| t.as_str()), Some("Music Is Math"));
    assert_eq!(edit.genre.as_ref().map(|g| g.as_str()), Some(""));
    assert_eq!(edit.disc_number.map(|d| d.value()), Some(0));
    assert_eq!(edit.year.map(|y| y.value()), Some(4464));
    assert!(edit.track_number.is_none());
    assert!(edit.artist.is_none());
}

#[test]
fn a_common_title_shows_its_text_and_differing_ones_show_mixed() {
    let same = vec![geogaddi(1, "Gyroscope", 1), geogaddi(2, "Gyroscope", 2)];
    assert_eq!(text_shared(&same, |t: &Track| t.title.clone()), Shared::Common("Gyroscope".to_string()));
    let differing = vec![geogaddi(1, "Gyroscope", 1), geogaddi(2, "Dandelion", 2)];
    assert_eq!(text_shared(&differing, |t: &Track| t.title.clone()), Shared::Mixed);
    assert_eq!(text_shared(&differing, |t: &Track| t.album.clone()), Shared::Common("Geogaddi".to_string()));
    assert_eq!(text_shared(&[], |t: &Track| t.title.clone()), Shared::Mixed);
}

#[test]
fn a_common_number_shows_its_digits_and_zero_shows_blank() {
    let tracks = vec![geogaddi(1, "a", 7), geogaddi(2, "b", 7)];
    assert_eq!(number_shared(&tracks, |t: &Track| t.track_number.value()), Shared::Common("7".to_string()));
    let unknown = vec![geogaddi(1, "a", 0), geogaddi(2, "b", 0)];
    assert_eq!(number_shared(&unknown, |t: &Track| t.track_number.value()), Shared::Common(String::new()));
    let differing = vec![geogaddi(1, "a", 1), geogaddi(2, "b", 2)];
    assert_eq!(number_shared(&differing, |t: &Track| t.track_number.value()), Shared::Mixed);
    assert_eq!(number_shared(&differing, |t: &Track| t.year.value() as u32), Shared::Common("2002".to_string()));
}
