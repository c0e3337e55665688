//! The controls of the header and player bars: the order of the sort fields
//! in the dropdown, the icon of the direction toggle, and the play/pause
//! button.
use vstd::prelude::*;

use crate::album::AlbumSortField;
use crate::album::SortDirection;
use crate::player::PlayerCommand;
use crate::ui::icon_name;
use crate::ui::AppIcon;

verus! {

/// The album-grid sort fields in dropdown order.
pub open spec fn sort_fields() -> Seq<AlbumSortField> {
    seq![
        AlbumSortField::AlbumArtist,
        AlbumSortField::Year,
        AlbumSortField::Genre,
        AlbumSortField::Album,
    ]
}

/// The dropdown position of `field`.
pub fn sort_field_index(field: AlbumSortField) -> (r: u32)
    ensures
        r < sort_fields().len(),
        sort_fields()[r as int] == field,
{
    match field {
        AlbumSortField::AlbumArtist => 0,
        AlbumSortField::Year => 1,
        AlbumSortField::Genre => 2,
        AlbumSortField::Album => 3,
    }
}

/// The sort field at dropdown position `index`; album artist for a position
/// past the end.
pub fn sort_field_at(index: u32) -> (r: AlbumSortField)
    ensures
        r == (if index < sort_fields().len() {
            sort_fields()[index as int]
        } else {
            AlbumSortField::AlbumArtist
        }),
{
    if index == 0 {
        AlbumSortField::AlbumArtist
    } else if index == 1 {
        AlbumSortField::Year
    } else if index == 2 {
        AlbumSortField::Genre
    } else if index == 3 {
        AlbumSortField::Album
    } else {
        AlbumSortField::AlbumArtist
    }
}

/// The icon the direction toggle shows for `direction`.
pub open spec fn direction_icon_of(direction: SortDirection) -> AppIcon {
    match direction {
        SortDirection::Ascending => AppIcon::ViewSortAscending,
        SortDirection::Descending => AppIcon::ViewSortDescending,
    }
}

/// The name of the icon the direction toggle shows for `direction`.
pub fn direction_icon(direction: SortDirection) -> (r: &'static str)
    ensures
        r@ == icon_name(direction_icon_of(direction)),
{
    match direction {
        SortDirection::Ascending => AppIcon::ViewSortAscending.name(),
        SortDirection::Descending => AppIcon::ViewSortDescending.name(),
    }
}

/// The direction the toggle stands for: descending while it is pressed.
pub fn direction_of_toggle(active: bool) -> (r: SortDirection)
    ensures
        r == (if active {
            SortDirection::Descending
        } else {
            SortDirection::Ascending
        }),
{
    if active {
        SortDirection::Descending
    } else {
        SortDirection::Ascending
    }
}

/// Every field sits in the dropdown exactly once: the field at a field's
/// position is that field, and no two positions hold the same field.
pub proof fn law_sort_field_position_round_trip(field: AlbumSortField)
    ensures
        exists|i: int|
            0 <= i < sort_fields().len() && #[trigger] sort_fields()[i] == field,
        forall|i: int, j: int|
            0 <= i < j < sort_fields().len() ==> #[trigger] sort_fields()[i]
                != #[trigger] sort_fields()[j],
{
    let i: int = match field {
        AlbumSortField::AlbumArtist => 0,
        AlbumSortField::Year => 1,
        AlbumSortField::Genre => 2,
        AlbumSortField::Album => 3,
    };
    assert(sort_fields()[i] == field);
}

/// The command the play/pause button sends: pause while playing, resume
/// otherwise.
pub fn play_pause_command(is_playing: bool) -> (r: PlayerCommand)
    ensures
        is_playing ==> r is Pause,
        !is_playing ==> r is Resume,
{
    if is_playing {
        PlayerCommand::Pause
    } else {
        PlayerCommand::Resume
    }
}

/// The icon the play/pause button shows: pause while playing, play
/// otherwise.
pub open spec fn play_pause_icon_of(is_playing: bool) -> AppIcon {
    if is_playing {
        AppIcon::MediaPlaybackPause
    } else {
        AppIcon::MediaPlaybackStart
    }
}

/// The name of the icon the play/pause button shows.
pub fn play_pause_icon(is_playing: bool) -> (r: &'static str)
    ensures
        r@ == icon_name(play_pause_icon_of(is_playing)),
{
    if is_playing {
        AppIcon::MediaPlaybackPause.name()
    } else {
        AppIcon::MediaPlaybackStart.name()
    }
}

} // verus!
