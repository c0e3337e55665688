use musicplayer_rs::album::AlbumSortField;
use musicplayer_rs::album::SortDirection;
use musicplayer_rs::controls::direction_icon;
use musicplayer_rs::controls::direction_of_toggle;
use musicplayer_rs::controls::play_pause_command;
use musicplayer_rs::controls::play_pause_icon;
use musicplayer_rs::player::PlayerCommand;
use musicplayer_rs::controls::sort_field_at;
use musicplayer_rs::controls::sort_field_index;

#[test]
fn sort_fields_keep_their_dropdown_order() {
    assert_eq!(sort_field_at(0), AlbumSortField::AlbumArtist);
    assert_eq!(sort_field_at(1), AlbumSortField::Year);
    assert_eq!(sort_field_at(2), AlbumSortField::Genre);
    assert_eq!(sort_field_at(3), AlbumSortField::Album);
    assert_eq!(sort_field_at(4), AlbumSortField::AlbumArtist);
    assert_eq!(sort_field_at(u32::MAX), AlbumSortField::AlbumArtist);
}

#[test]
fn a_fields_position_reads_back_as_the_field() {
    for field in [
        AlbumSortField::AlbumArtist,
        AlbumSortField::Year,
        AlbumSortField::Genre,
        AlbumSortField::Album,
    ] {
        assert_eq!(sort_field_at(sort_field_index(field)), field);
    }
    assert_eq!(sort_field_index(AlbumSortField::Genre), 2);
}

#[test]
fn the_direction_toggle_shows_the_matching_sort_icon() {
    assert_eq!(direction_icon(SortDirection::Ascending), "view-sort-ascending-symbolic");
    assert_eq!(direction_icon(SortDirection::Descending), "view-sort-descending-symbolic");
    assert_eq!(direction_of_toggle(true), SortDirection::Descending);
    assert_eq!(direction_of_toggle(false), SortDirection::Ascending);
}

#[test]
fn the_play_button_pauses_while_playing_and_resumes_otherwise() {
    assert_eq!(play_pause_command(true), PlayerCommand::Pause);
    assert_eq!(play_pause_command(false), PlayerCommand::Resume);
    assert_eq!(play_pause_icon(true), "media-playback-pause-symbolic");
    assert_eq!(play_pause_icon(false), "media-playback-start-symbolic");
}
