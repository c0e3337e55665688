use musicplayer_rs::column::ColumnConfig;
use musicplayer_rs::column::ColumnPrefs;
use musicplayer_rs::format::render;
use musicplayer_rs::format::TrackField;
use musicplayer_rs::track::AlbumTitle;
use musicplayer_rs::track::Artist;
use musicplayer_rs::track::Composer;
use musicplayer_rs::track::DiscNumber;
use musicplayer_rs::track::Genre;
use musicplayer_rs::track::Title;
use musicplayer_rs::track::Track;
use musicplayer_rs::track::TrackDuration;
use musicplayer_rs::track::TrackId;
use musicplayer_rs::track::TrackNumber;
use musicplayer_rs::track::TrackPath;
use musicplayer_rs::track::Year;

fn geogaddi_track() -> Track {
    Track {
        id: TrackId::new(1),
        path: TrackPath::new("/home/user/Music/boc/geogaddi/02_music_is_math.flac").unwrap(),
        title: Title::new("Music Is Math"),
        artist: Artist::new("Boards of Canada"),
        album_artist: Artist::new(""),
        album: AlbumTitle::new("Geogaddi"),
        genre: Genre::new("Ambient"),
        composer: Composer::new(""),
        duration: TrackDuration::from_secs(230),
        track_number: TrackNumber::new(2),
        disc_number: DiscNumber::new(1),
        year: Year::new(2002),
    }
}

fn fields(prefs: &ColumnPrefs) -> Vec<TrackField> {
    prefs.columns().iter().map(|c| c.field).collect()
}

#[test]
fn default_matches_the_original_six_columns_in_order() {
    assert_eq!(
        fields(&ColumnPrefs::default()),
        vec![
            TrackField::Title,
            TrackField::Artist,
            TrackField::Album,
            TrackField::Genre,
            TrackField::Year,
            TrackField::Duration,
        ]
    );
}

#[test]
fn default_column_renders_the_bare_field_value() {
    let prefs = ColumnPrefs::default();
    let title_column = &prefs.columns()[0];
    assert_eq!(render(&title_column.format, &geogaddi_track()), "Music Is Math");
}

#[test]
fn is_visible_true_for_a_column_in_the_list() {
    assert!(ColumnPrefs::default().is_visible(TrackField::Artist));
}

#[test]
fn is_visible_false_for_a_field_not_in_the_list() {
    assert!(!ColumnPrefs::default().is_visible(TrackField::Composer));
}

#[test]
fn new_preserves_the_given_order_without_resorting() {
    let prefs = ColumnPrefs::new(vec![
        ColumnConfig::default_for(TrackField::Duration),
        ColumnConfig::default_for(TrackField::Title),
    ]);
    assert_eq!(fields(&prefs), vec![TrackField::Duration, TrackField::Title]);
}

#[test]
fn default_for_uses_the_bare_placeholder_for_the_given_field() {
    let config = ColumnConfig::default_for(TrackField::Genre);
    assert_eq!(config.format.to_string(), "%genre%");
}

#[test]
fn default_for_has_no_fixed_width() {
    let config = ColumnConfig::default_for(TrackField::Genre);
    assert_eq!(config.width, None);
}

#[test]
fn new_preserves_a_custom_width() {
    let prefs = ColumnPrefs::new(vec![ColumnConfig {
        width: Some(240),
        ..ColumnConfig::default_for(TrackField::Title)
    }]);
    assert_eq!(prefs.columns()[0].width, Some(240));
}

#[test]
fn showing_a_hidden_field_appends_its_default_column() {
    let prefs = ColumnPrefs::default().with_field_visible(TrackField::Composer, true);
    assert_eq!(fields(&prefs).len(), 7);
    assert_eq!(fields(&prefs)[6], TrackField::Composer);
    assert_eq!(prefs.columns()[6].format.to_string(), "%composer%");
}

#[test]
fn showing_a_visible_field_changes_nothing() {
    let custom = ColumnPrefs::new(vec![ColumnConfig {
        width: Some(120),
        ..ColumnConfig::default_for(TrackField::Title)
    }]);
    let prefs = custom.with_field_visible(TrackField::Title, true);
    assert_eq!(prefs, custom);
}

#[test]
fn hiding_a_field_drops_its_column_and_keeps_the_rest_in_order() {
    let prefs = ColumnPrefs::default().with_field_visible(TrackField::Album, false);
    assert_eq!(
        fields(&prefs),
        vec![
            TrackField::Title,
            TrackField::Artist,
            TrackField::Genre,
            TrackField::Year,
            TrackField::Duration,
        ]
    );
    assert!(!prefs.is_visible(TrackField::Album));
}

#[test]
fn moving_a_column_puts_it_before_the_target() {
    let prefs = ColumnPrefs::default().with_field_moved_before(TrackField::Duration, TrackField::Artist);
    assert_eq!(
        fields(&prefs),
        vec![
            TrackField::Title,
            TrackField::Duration,
            TrackField::Artist,
            TrackField::Album,
            TrackField::Genre,
            TrackField::Year,
        ]
    );
}

#[test]
fn moving_a_column_later_puts_it_before_the_target() {
    let prefs = ColumnPrefs::default().with_field_moved_before(TrackField::Title, TrackField::Year);
    assert_eq!(
        fields(&prefs),
        vec![
            TrackField::Artist,
            TrackField::Album,
            TrackField::Genre,
            TrackField::Title,
            TrackField::Year,
            TrackField::Duration,
        ]
    );
}

#[test]
fn moving_onto_itself_or_a_hidden_field_is_a_no_op_or_goes_last() {
    let base = ColumnPrefs::default();
    assert_eq!(base.with_field_moved_before(TrackField::Genre, TrackField::Genre), base);
    assert_eq!(base.with_field_moved_before(TrackField::Composer, TrackField::Title), base);
    let last = base.with_field_moved_before(TrackField::Title, TrackField::Composer);
    assert_eq!(fields(&last)[5], TrackField::Title);
}

#[test]
fn hidden_fields_are_the_rest_in_canonical_order() {
    assert_eq!(
        ColumnPrefs::default().hidden_fields(),
        vec![
            TrackField::AlbumArtist,
            TrackField::Composer,
            TrackField::TrackNumber,
            TrackField::DiscNumber,
        ]
    );
}

#[test]
fn column_clone_keeps_the_column() {
    let config = ColumnConfig {
        width: Some(80),
        ..ColumnConfig::default_for(TrackField::Year)
    };
    assert_eq!(config.clone(), config);
    let prefs = ColumnPrefs::default();
    assert_eq!(prefs.clone(), prefs);
}
