use musicplayer_rs::album::AlbumSummary;
use musicplayer_rs::spacing;
use musicplayer_rs::track::AlbumTitle;
use musicplayer_rs::track::Artist;
use musicplayer_rs::track::Composer;
use musicplayer_rs::track::DiscNumber;
use musicplayer_rs::track::Genre;
use musicplayer_rs::track::Title;
use musicplayer_rs::track::Track;
use musicplayer_rs::track::TrackDuration;
use musicplayer_rs::track::TrackId;
use musicplayer_rs::track::TrackNumber;
use musicplayer_rs::track::TrackPath;
use musicplayer_rs::track::Year;
use musicplayer_rs::ui::display_title;
use musicplayer_rs::ui::drawer_heading;
use musicplayer_rs::ui::edit_label;
use musicplayer_rs::ui::enqueue_label;
use musicplayer_rs::ui::format_duration;
use musicplayer_rs::ui::format_duration_secs;
use musicplayer_rs::ui::now_playing_label;
use musicplayer_rs::ui::track_number;
use musicplayer_rs::ui::AppIcon;
use musicplayer_rs::ui::Margins;
use musicplayer_rs::ui::StyleClass;
use musicplayer_rs::ui::ViewMode;

const ALL_CLASSES: [StyleClass; 10] = [
    StyleClass::SectionList,
    StyleClass::SectionName,
    StyleClass::SidebarTitle,
    StyleClass::Sidebar,
    StyleClass::PlayerBar,
    StyleClass::Seek,
    StyleClass::AlbumCell,
    StyleClass::AlbumSelected,
    StyleClass::AlbumMultiSelected,
    StyleClass::AlbumDrawer,
];

const ALL_ICONS: [AppIcon; 18] = [
    AppIcon::ListAdd,
    AppIcon::ListDragHandle,
    AppIcon::EditClear,
    AppIcon::SidebarShow,
    AppIcon::SidebarShowRight,
    AppIcon::FolderNew,
    AppIcon::ViewRefresh,
    AppIcon::ViewList,
    AppIcon::ViewGrid,
    AppIcon::ViewSortAscending,
    AppIcon::ViewSortDescending,
    AppIcon::MediaSkipBackward,
    AppIcon::MediaPlaybackStart,
    AppIcon::MediaPlaybackPause,
    AppIcon::MediaPlaybackStop,
    AppIcon::MediaSkipForward,
    AppIcon::AudioVolumeMedium,
    AppIcon::OpenMenu,
];

#[test]
fn style_class_names_are_unique() {
    let mut names: Vec<&str> = ALL_CLASSES.iter().map(|c| c.name()).collect();
    names.sort_unstable();
    names.dedup();
    assert_eq!(names.len(), ALL_CLASSES.len());
}

#[test]
fn margins_none_zeroes_every_side() {
    assert_eq!(Margins::none(), Margins::all(0));
}

#[test]
fn margins_all_sets_every_side() {
    let margins = Margins::all(spacing::M);
    assert_eq!(
        margins,
        Margins::none()
            .start(spacing::M)
            .end(spacing::M)
            .top(spacing::M)
            .bottom(spacing::M)
    );
}

#[test]
fn margins_horizontal_leaves_vertical_zero() {
    let margins = Margins::horizontal(spacing::L);
    assert_eq!(margins, Margins::none().start(spacing::L).end(spacing::L));
}

#[test]
fn margins_vertical_leaves_horizontal_zero() {
    let margins = Margins::vertical(spacing::S);
    assert_eq!(margins, Margins::none().top(spacing::S).bottom(spacing::S));
}

#[test]
fn margins_chaining_overrides_a_single_side() {
    let margins = Margins::all(spacing::M).top(spacing::XL);
    assert_eq!(
        margins,
        Margins::none()
            .start(spacing::M)
            .end(spacing::M)
            .top(spacing::XL)
            .bottom(spacing::M)
    );
}

#[test]
fn margins_sides_and_default() {
    assert_eq!(Margins::default(), Margins::none());
    assert_eq!(
        Margins::none().start(spacing::XS).bottom(spacing::XL).sides(),
        (2, 0, 0, 16)
    );
}

#[test]
fn list_maps_to_list_child() {
    assert_eq!(ViewMode::List.child_name(), "list");
}

#[test]
fn grid_maps_to_grid_child() {
    assert_eq!(ViewMode::Grid.child_name(), "grid");
}

#[test]
fn icon_names_are_unique() {
    let mut names: Vec<&str> = ALL_ICONS.iter().map(|i| i.name()).collect();
    names.sort_unstable();
    names.dedup();
    assert_eq!(names.len(), ALL_ICONS.len());
}

#[test]
fn every_icon_is_symbolic() {
    for icon in ALL_ICONS {
        assert!(
            icon.name().ends_with("-symbolic"),
            "{} is not a symbolic icon name",
            icon.name()
        );
    }
}

#[test]
fn enqueue_label_reads_add_to_queue_for_a_single_track() {
    assert_eq!(enqueue_label(1), "Add to Queue");
}

#[test]
fn enqueue_label_reads_add_n_to_queue_for_a_batch() {
    assert_eq!(enqueue_label(3), "Add 3 to Queue");
}

#[test]
fn edit_label_reads_edit_track_for_a_single_track() {
    assert_eq!(edit_label(1), "Edit Track\u{2026}");
}

#[test]
fn edit_label_reads_edit_n_tracks_for_a_batch() {
    assert_eq!(edit_label(12), "Edit 12 Tracks\u{2026}");
}

fn track(title: &str, path: &str, disc: u32, number: u32) -> Track {
    Track {
        id: TrackId::new(1),
        path: TrackPath::new(path).unwrap(),
        title: Title::new(title),
        artist: Artist::new("Boards of Canada"),
        album_artist: Artist::new(""),
        album: AlbumTitle::new("Geogaddi"),
        genre: Genre::new(""),
        composer: Composer::new(""),
        duration: TrackDuration::from_secs(133),
        track_number: TrackNumber::new(number),
        disc_number: DiscNumber::new(disc),
        year: Year::new(2002),
    }
}

#[test]
fn durations_format_as_minutes_and_seconds() {
    assert_eq!(format_duration_secs(0), "0:00");
    assert_eq!(format_duration_secs(133), "2:13");
    assert_eq!(format_duration_secs(3_605), "60:05");
    assert_eq!(format_duration(TrackDuration::from_millis(59_999)), "0:59");
}

#[test]
fn display_title_falls_back_to_the_file_stem() {
    assert_eq!(display_title(&track("Roygbiv", "/m/x.flac", 1, 1)), "Roygbiv");
    assert_eq!(display_title(&track("", "/m/05 Roygbiv.flac", 1, 1)), "05 Roygbiv");
    assert_eq!(display_title(&track("  ", "/m/archive.tar.gz", 1, 1)), "archive.tar");
    assert_eq!(display_title(&track("", "/", 1, 1)), "");
}

#[test]
fn track_numbers_read_disc_dot_track() {
    assert_eq!(track_number(&track("t", "/m/a.flac", 1, 1)), "1.01");
    assert_eq!(track_number(&track("t", "/m/a.flac", 2, 10)), "2.10");
    assert_eq!(track_number(&track("t", "/m/a.flac", 0, 7)), "7");
    assert_eq!(track_number(&track("t", "/m/a.flac", 3, 0)), "3.");
    assert_eq!(track_number(&track("t", "/m/a.flac", 0, 0)), "");
    assert_eq!(track_number(&track("t", "/m/a.flac", 1, 123)), "1.123");
}

#[test]
fn drawer_heading_names_album_artist_and_year() {
    let summary = AlbumSummary {
        album: AlbumTitle::new("Geogaddi"),
        artist: Artist::new("Boards of Canada"),
        genre: Genre::new("Electronic"),
        year: Year::new(2002),
        has_art: false,
    };
    assert_eq!(drawer_heading(&summary), "Geogaddi \u{2014} Boards of Canada (2002)");
    let undated = AlbumSummary {
        year: Year::new(0),
        ..summary.clone()
    };
    assert_eq!(drawer_heading(&undated), "Geogaddi \u{2014} Boards of Canada");
}

#[test]
fn the_player_bar_names_artist_and_title_or_falls_back() {
    let t = track("Gyroscope", "/music/boc/geogaddi/07.flac", 1, 7);
    assert_eq!(now_playing_label(&t), "Boards of Canada \u{2014} Gyroscope");
    let mut no_artist = t.clone();
    no_artist.artist = Artist::new("");
    assert_eq!(now_playing_label(&no_artist), "Gyroscope");
    let mut no_tags = no_artist.clone();
    no_tags.title = Title::new("");
    assert_eq!(now_playing_label(&no_tags), "07.flac");
    no_tags.path = TrackPath::new("/").unwrap();
    assert_eq!(now_playing_label(&no_tags), "Unknown");
}
