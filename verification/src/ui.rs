//! Presentation values the views share: view modes, icon and style names,
//! margins, and the text labels the library views show.
use vstd::prelude::*;

use crate::album::AlbumSummary;
use crate::format::minutes_seconds;
use crate::format::push_minutes_seconds;
use crate::text::decimal;
use crate::text::decimal2;
use crate::text::owned;
use crate::text::push_char;
use crate::text::push_decimal;
use crate::text::push_decimal2;
use crate::text::push_str;
use crate::track::Track;
use crate::track::TrackDuration;

verus! {

broadcast use vstd::string::group_string_axioms;

/// Which content view the main window is showing.
#[derive(Debug, Clone, Copy, PartialEq, Eq, Structural)]
pub enum ViewMode {
    List,
    Grid,
}

/// The content-stack child that `mode` shows.
pub open spec fn view_child(mode: ViewMode) -> Seq<char> {
    match mode {
        ViewMode::List => "list"@,
        ViewMode::Grid => "grid"@,
    }
}

impl ViewMode {
    /// The content-stack child name this mode maps to.
    pub fn child_name(self) -> (r: &'static str)
        ensures
            r@ == view_child(self),
    {
        match self {
            ViewMode::List => "list",
            ViewMode::Grid => "grid",
        }
    }
}

/// Every symbolic icon the app uses. A misspelt icon name renders a broken
/// image; a variant of this enum cannot be misspelt.
#[derive(Debug, Clone, Copy, PartialEq, Eq, Structural)]
pub enum AppIcon {
    ListAdd,
    ListDragHandle,
    EditClear,
    SidebarShow,
    SidebarShowRight,
    FolderNew,
    ViewRefresh,
    ViewList,
    ViewGrid,
    ViewSortAscending,
    ViewSortDescending,
    MediaSkipBackward,
    MediaPlaybackStart,
    MediaPlaybackPause,
    MediaPlaybackStop,
    MediaSkipForward,
    AudioVolumeMedium,
    OpenMenu,
}

/// The freedesktop name of `icon`.
pub open spec fn icon_name(icon: AppIcon) -> Seq<char> {
    match icon {
        AppIcon::ListAdd => "list-add-symbolic"@,
        AppIcon::ListDragHandle => "list-drag-handle-symbolic"@,
        AppIcon::EditClear => "edit-clear-symbolic"@,
        AppIcon::SidebarShow => "sidebar-show-symbolic"@,
        AppIcon::SidebarShowRight => "sidebar-show-right-symbolic"@,
        AppIcon::FolderNew => "folder-new-symbolic"@,
        AppIcon::ViewRefresh => "view-refresh-symbolic"@,
        AppIcon::ViewList => "view-list-symbolic"@,
        AppIcon::ViewGrid => "view-grid-symbolic"@,
        AppIcon::ViewSortAscending => "view-sort-ascending-symbolic"@,
        AppIcon::ViewSortDescending => "view-sort-descending-symbolic"@,
        AppIcon::MediaSkipBackward => "media-skip-backward-symbolic"@,
        AppIcon::MediaPlaybackStart => "media-playback-start-symbolic"@,
        AppIcon::MediaPlaybackPause => "media-playback-pause-symbolic"@,
        AppIcon::MediaPlaybackStop => "media-playback-stop-symbolic"@,
        AppIcon::MediaSkipForward => "media-skip-forward-symbolic"@,
        AppIcon::AudioVolumeMedium => "audio-volume-medium-symbolic"@,
        AppIcon::OpenMenu => "open-menu-symbolic"@,
    }
}

impl AppIcon {
    /// The freedesktop icon name.
    pub fn name(self) -> (r: &'static str)
        ensures
            r@ == icon_name(self),
    {
        match self {
            AppIcon::ListAdd => "list-add-symbolic",
            AppIcon::ListDragHandle => "list-drag-handle-symbolic",
            AppIcon::EditClear => "edit-clear-symbolic",
            AppIcon::SidebarShow => "sidebar-show-symbolic",
            AppIcon::SidebarShowRight => "sidebar-show-right-symbolic",
            AppIcon::FolderNew => "folder-new-symbolic",
            AppIcon::ViewRefresh => "view-refresh-symbolic",
            AppIcon::ViewList => "view-list-symbolic",
            AppIcon::ViewGrid => "view-grid-symbolic",
            AppIcon::ViewSortAscending => "view-sort-ascending-symbolic",
            AppIcon::ViewSortDescending => "view-sort-descending-symbolic",
            AppIcon::MediaSkipBackward => "media-skip-backward-symbolic",
            AppIcon::MediaPlaybackStart => "media-playback-start-symbolic",
            AppIcon::MediaPlaybackPause => "media-playback-pause-symbolic",
            AppIcon::MediaPlaybackStop => "media-playback-stop-symbolic",
            AppIcon::MediaSkipForward => "media-skip-forward-symbolic",
            AppIcon::AudioVolumeMedium => "audio-volume-medium-symbolic",
            AppIcon::OpenMenu => "open-menu-symbolic",
        }
    }
}

/// The length of `icon_name(x)` and its characters at 5 and 15: no two variants agree on all three.
spec fn icon_name_marks(x: AppIcon) -> (nat, char, char) {
    match x {
        AppIcon::ListAdd => (17, 'a', 'i'),
        AppIcon::ListDragHandle => (25, 'd', 'e'),
        AppIcon::EditClear => (19, 'c', 'o'),
        AppIcon::SidebarShow => (21, 'a', 'm'),
        AppIcon::SidebarShowRight => (27, 'a', 'g'),
        AppIcon::FolderNew => (19, 'r', 'o'),
        AppIcon::ViewRefresh => (21, 'r', 'm'),
        AppIcon::ViewList => (18, 'l', 'l'),
        AppIcon::ViewGrid => (18, 'g', 'l'),
        AppIcon::ViewSortAscending => (28, 's', 'd'),
        AppIcon::ViewSortDescending => (29, 's', 'n'),
        AppIcon::MediaSkipBackward => (28, '-', 'w'),
        AppIcon::MediaPlaybackStart => (29, '-', 's'),
        AppIcon::MediaPlaybackPause => (29, '-', 'p'),
        AppIcon::MediaPlaybackStop => (28, '-', 's'),
        AppIcon::MediaSkipForward => (27, '-', 'a'),
        AppIcon::AudioVolumeMedium => (28, '-', 'd'),
        AppIcon::OpenMenu => (18, 'm', 'l'),
    }
}

proof fn lemma_icon_name_marks(x: AppIcon)
    ensures
        icon_name(x).len() == icon_name_marks(x).0,
        icon_name(x)[5] == icon_name_marks(x).1,
        icon_name(x)[15] == icon_name_marks(x).2,
{
    match x {
        AppIcon::ListAdd => reveal_strlit("list-add-symbolic"),
        AppIcon::ListDragHandle => reveal_strlit("list-drag-handle-symbolic"),
        AppIcon::EditClear => reveal_strlit("edit-clear-symbolic"),
        AppIcon::SidebarShow => reveal_strlit("sidebar-show-symbolic"),
        AppIcon::SidebarShowRight => reveal_strlit("sidebar-show-right-symbolic"),
        AppIcon::FolderNew => reveal_strlit("folder-new-symbolic"),
        AppIcon::ViewRefresh => reveal_strlit("view-refresh-symbolic"),
        AppIcon::ViewList => reveal_strlit("view-list-symbolic"),
        AppIcon::ViewGrid => reveal_strlit("view-grid-symbolic"),
        AppIcon::ViewSortAscending => reveal_strlit("view-sort-ascending-symbolic"),
        AppIcon::ViewSortDescending => reveal_strlit("view-sort-descending-symbolic"),
        AppIcon::MediaSkipBackward => reveal_strlit("media-skip-backward-symbolic"),
        AppIcon::MediaPlaybackStart => reveal_strlit("media-playback-start-symbolic"),
        AppIcon::MediaPlaybackPause => reveal_strlit("media-playback-pause-symbolic"),
        AppIcon::MediaPlaybackStop => reveal_strlit("media-playback-stop-symbolic"),
        AppIcon::MediaSkipForward => reveal_strlit("media-skip-forward-symbolic"),
        AppIcon::AudioVolumeMedium => reveal_strlit("audio-volume-medium-symbolic"),
        AppIcon::OpenMenu => reveal_strlit("open-menu-symbolic"),
    }
}

/// No two icons share a name.
pub proof fn law_icon_names_are_unique(a: AppIcon, b: AppIcon)
    requires
        a != b,
    ensures
        icon_name(a) != icon_name(b),
{
    lemma_icon_name_marks(a);
    lemma_icon_name_marks(b);
}

/// Every icon name ends in `-symbolic`.
pub proof fn law_every_icon_is_symbolic(icon: AppIcon)
    ensures
        icon_name(icon).len() >= 9,
        icon_name(icon).subrange(icon_name(icon).len() - 9, icon_name(icon).len() as int)
            == "-symbolic"@,
{
    reveal_strlit("-symbolic");
    match icon {
        AppIcon::ListAdd => {
            reveal_strlit("list-add-symbolic");
            assert("list-add-symbolic"@.subrange(8, 17) =~= "-symbolic"@);
        },
        AppIcon::ListDragHandle => {
            reveal_strlit("list-drag-handle-symbolic");
            assert("list-drag-handle-symbolic"@.subrange(16, 25) =~= "-symbolic"@);
        },
        AppIcon::EditClear => {
            reveal_strlit("edit-clear-symbolic");
            assert("edit-clear-symbolic"@.subrange(10, 19) =~= "-symbolic"@);
        },
        AppIcon::SidebarShow => {
            reveal_strlit("sidebar-show-symbolic");
            assert("sidebar-show-symbolic"@.subrange(12, 21) =~= "-symbolic"@);
        },
        AppIcon::SidebarShowRight => {
            reveal_strlit("sidebar-show-right-symbolic");
            assert("sidebar-show-right-symbolic"@.subrange(18, 27) =~= "-symbolic"@);
        },
        AppIcon::FolderNew => {
            reveal_strlit("folder-new-symbolic");
            assert("folder-new-symbolic"@.subrange(10, 19) =~= "-symbolic"@);
        },
        AppIcon::ViewRefresh => {
            reveal_strlit("view-refresh-symbolic");
            assert("view-refresh-symbolic"@.subrange(12, 21) =~= "-symbolic"@);
        },
        AppIcon::ViewList => {
            reveal_strlit("view-list-symbolic");
            assert("view-list-symbolic"@.subrange(9, 18) =~= "-symbolic"@);
        },
        AppIcon::ViewGrid => {
            reveal_strlit("view-grid-symbolic");
            assert("view-grid-symbolic"@.subrange(9, 18) =~= "-symbolic"@);
        },
        AppIcon::ViewSortAscending => {
            reveal_strlit("view-sort-ascending-symbolic");
            assert("view-sort-ascending-symbolic"@.subrange(19, 28) =~= "-symbolic"@);
        },
        AppIcon::ViewSortDescending => {
            reveal_strlit("view-sort-descending-symbolic");
            assert("view-sort-descending-symbolic"@.subrange(20, 29) =~= "-symbolic"@);
        },
        AppIcon::MediaSkipBackward => {
            reveal_strlit("media-skip-backward-symbolic");
            assert("media-skip-backward-symbolic"@.subrange(19, 28) =~= "-symbolic"@);
        },
        AppIcon::MediaPlaybackStart => {
            reveal_strlit("media-playback-start-symbolic");
            assert("media-playback-start-symbolic"@.subrange(20, 29) =~= "-symbolic"@);
        },
        AppIcon::MediaPlaybackPause => {
            reveal_strlit("media-playback-pause-symbolic");
            assert("media-playback-pause-symbolic"@.subrange(20, 29) =~= "-symbolic"@);
        },
        AppIcon::MediaPlaybackStop => {
            reveal_strlit("media-playback-stop-symbolic");
            assert("media-playback-stop-symbolic"@.subrange(19, 28) =~= "-symbolic"@);
        },
        AppIcon::MediaSkipForward => {
            reveal_strlit("media-skip-forward-symbolic");
            assert("media-skip-forward-symbolic"@.subrange(18, 27) =~= "-symbolic"@);
        },
        AppIcon::AudioVolumeMedium => {
            reveal_strlit("audio-volume-medium-symbolic");
            assert("audio-volume-medium-symbolic"@.subrange(19, 28) =~= "-symbolic"@);
        },
        AppIcon::OpenMenu => {
            reveal_strlit("open-menu-symbolic");
            assert("open-menu-symbolic"@.subrange(9, 18) =~= "-symbolic"@);
        },
    }
}

/// A CSS class defined by the application stylesheet. An unknown class name
/// is silently ignored by the toolkit, so keeping the set closed here turns a
/// class-name typo into a compile error instead of an unstyled widget.
#[derive(Debug, Clone, Copy, PartialEq, Eq, Structural)]
pub enum StyleClass {
    /// Flat selectable list inside an indented sidebar section.
    SectionList,
    /// Bold title of a collapsible sidebar section.
    SectionName,
    /// Bold, slightly larger sidebar panel title.
    SidebarTitle,
    /// A sidebar panel's root container — tinted apart from the content area.
    Sidebar,
    /// The bottom transport bar.
    PlayerBar,
    /// The player bar's knobless seek scale.
    Seek,
    /// One album cover cell in the grid.
    AlbumCell,
    /// The cover whose drawer is open.
    AlbumSelected,
    /// A cover in the current multi-selection.
    AlbumMultiSelected,
    /// The inline track drawer beneath a cover's row.
    AlbumDrawer,
}

/// The stylesheet name of `class`.
pub open spec fn class_name(class: StyleClass) -> Seq<char> {
    match class {
        StyleClass::SectionList => "app-section-list"@,
        StyleClass::SectionName => "app-section-name"@,
        StyleClass::SidebarTitle => "app-sidebar-title"@,
        StyleClass::Sidebar => "app-sidebar"@,
        StyleClass::PlayerBar => "player-bar"@,
        StyleClass::Seek => "seek"@,
        StyleClass::AlbumCell => "album-cell"@,
        StyleClass::AlbumSelected => "album-selected"@,
        StyleClass::AlbumMultiSelected => "album-multi-selected"@,
        StyleClass::AlbumDrawer => "album-drawer"@,
    }
}

impl StyleClass {
    /// The class name as written in the stylesheet.
    pub fn name(self) -> (r: &'static str)
        ensures
            r@ == class_name(self),
    {
        match self {
            StyleClass::SectionList => "app-section-list",
            StyleClass::SectionName => "app-section-name",
            StyleClass::SidebarTitle => "app-sidebar-title",
            StyleClass::Sidebar => "app-sidebar",
            StyleClass::PlayerBar => "player-bar",
            StyleClass::Seek => "seek",
            StyleClass::AlbumCell => "album-cell",
            StyleClass::AlbumSelected => "album-selected",
            StyleClass::AlbumMultiSelected => "album-multi-selected",
            StyleClass::AlbumDrawer => "album-drawer",
        }
    }
}

/// The length of `class_name(x)` and its first and last characters: no two variants agree on all three.
spec fn class_name_marks(x: StyleClass) -> (nat, char, char) {
    match x {
        StyleClass::SectionList => (16, 'a', 't'),
        StyleClass::SectionName => (16, 'a', 'e'),
        StyleClass::SidebarTitle => (17, 'a', 'e'),
        StyleClass::Sidebar => (11, 'a', 'r'),
        StyleClass::PlayerBar => (10, 'p', 'r'),
        StyleClass::Seek => (4, 's', 'k'),
        StyleClass::AlbumCell => (10, 'a', 'l'),
        StyleClass::AlbumSelected => (14, 'a', 'd'),
        StyleClass::AlbumMultiSelected => (20, 'a', 'd'),
        StyleClass::AlbumDrawer => (12, 'a', 'r'),
    }
}

proof fn lemma_class_name_marks(x: StyleClass)
    ensures
        class_name(x).len() == class_name_marks(x).0,
        class_name(x)[0] == class_name_marks(x).1,
        class_name(x)[class_name(x).len() - 1] == class_name_marks(x).2,
{
    match x {
        StyleClass::SectionList => reveal_strlit("app-section-list"),
        StyleClass::SectionName => reveal_strlit("app-section-name"),
        StyleClass::SidebarTitle => reveal_strlit("app-sidebar-title"),
        StyleClass::Sidebar => reveal_strlit("app-sidebar"),
        StyleClass::PlayerBar => reveal_strlit("player-bar"),
        StyleClass::Seek => reveal_strlit("seek"),
        StyleClass::AlbumCell => reveal_strlit("album-cell"),
        StyleClass::AlbumSelected => reveal_strlit("album-selected"),
        StyleClass::AlbumMultiSelected => reveal_strlit("album-multi-selected"),
        StyleClass::AlbumDrawer => reveal_strlit("album-drawer"),
    }
}

/// No two style classes share a name.
pub proof fn law_class_names_are_unique(a: StyleClass, b: StyleClass)
    requires
        a != b,
    ensures
        class_name(a) != class_name(b),
{
    lemma_class_name_marks(a);
    lemma_class_name_marks(b);
}

/// A widget's four margins, built by chaining from a base constructor:
/// `Margins::none().start(spacing::S).top(spacing::M)`.
#[derive(Debug, Clone, Copy, PartialEq, Eq, Structural)]
pub struct Margins {
    start: i32,
    end: i32,
    top: i32,
    bottom: i32,
}

impl View for Margins {
    /// Start, end, top and bottom, in that order.
    type V = (i32, i32, i32, i32);

    closed spec fn view(&self) -> (i32, i32, i32, i32) {
        (self.start, self.end, self.top, self.bottom)
    }
}

impl Margins {
    /// All four margins zero.
    pub fn none() -> (r: Self)
        ensures
            r@ == (0i32, 0i32, 0i32, 0i32),
    {
        Margins { start: 0, end: 0, top: 0, bottom: 0 }
    }

    /// All four margins `px`.
    pub fn all(px: i32) -> (r: Self)
        ensures
            r@ == (px, px, px, px),
    {
        Margins { start: px, end: px, top: px, bottom: px }
    }

    /// Start and end margins `px`, top and bottom zero.
    pub fn horizontal(px: i32) -> (r: Self)
        ensures
            r@ == (px, px, 0i32, 0i32),
    {
        Margins { start: px, end: px, top: 0, bottom: 0 }
    }

    /// Top and bottom margins `px`, start and end zero.
    pub fn vertical(px: i32) -> (r: Self)
        ensures
            r@ == (0i32, 0i32, px, px),
    {
        Margins { start: 0, end: 0, top: px, bottom: px }
    }

    /// These margins with the start margin `px`.
    pub fn start(self, px: i32) -> (r: Self)
        ensures
            r@ == (px, self@.1, self@.2, self@.3),
    {
        Margins { start: px, ..self }
    }

    /// These margins with the end margin `px`.
    pub fn end(self, px: i32) -> (r: Self)
        ensures
            r@ == (self@.0, px, self@.2, self@.3),
    {
        Margins { end: px, ..self }
    }

    /// These margins with the top margin `px`.
    pub fn top(self, px: i32) -> (r: Self)
        ensures
            r@ == (self@.0, self@.1, px, self@.3),
    {
        Margins { top: px, ..self }
    }

    /// These margins with the bottom margin `px`.
    pub fn bottom(self, px: i32) -> (r: Self)
        ensures
            r@ == (self@.0, self@.1, self@.2, px),
    {
        Margins { bottom: px, ..self }
    }

    /// The start, end, top and bottom margins, for applying them to a widget.
    pub fn sides(self) -> (r: (i32, i32, i32, i32))
        ensures
            r == self@,
    {
        (self.start, self.end, self.top, self.bottom)
    }
}

impl Default for Margins {
    /// All four margins zero.
    fn default() -> (r: Self)
        ensures
            r@ == (0i32, 0i32, 0i32, 0i32),
    {
        Margins::none()
    }
}

/// Margins are equal exactly when their four sides are.
pub proof fn law_margins_equal_by_sides(a: Margins, b: Margins)
    ensures
        a == b <==> a@ == b@,
{
}

// ---------------------------------------------------------------------------
// Labels

/// Formats a raw second count as `m:ss`.
pub fn format_duration_secs(secs: u64) -> (r: String)
    ensures
        r@ == minutes_seconds(secs as nat),
{
    let mut r = String::new();
    push_minutes_seconds(&mut r, secs);
    r
}

/// Formats a `TrackDuration` as `m:ss`.
pub fn format_duration(d: TrackDuration) -> (r: String)
    ensures
        r@ == minutes_seconds(d@ / 1000),
{
    format_duration_secs(d.as_secs())
}

/// What `Path::file_stem` gives for `path`: the final component without its
/// extension, if the path has a final component.
pub uninterp spec fn file_stem_of(path: Seq<char>) -> Option<Seq<char>>;

/// The final component of `path` without its extension (`Path::file_stem`),
/// when there is one and it is valid text.
#[verifier::external_body]
fn file_stem(path: &str) -> (r: Option<String>)
    ensures
        r matches Some(s) ==> file_stem_of(path@) == Some(s@),
        r is None ==> file_stem_of(path@) is None,
{
    std::path::Path::new(path).file_stem().and_then(|s| s.to_str()).map(|s| s.to_string())
}

/// The text a track is listed under: its title, or `fallback` (empty when
/// `None`) when the title tag is absent.
pub open spec fn title_or(title: Seq<char>, fallback: Option<Seq<char>>) -> Seq<char> {
    if title.len() == 0 {
        match fallback {
            Some(f) => f,
            None => Seq::empty(),
        }
    } else {
        title
    }
}

/// The track's title, or `stem` (empty when `None`) when the title tag is
/// absent.
pub fn title_or_stem(track: &Track, stem: Option<String>) -> (r: String)
    ensures
        r@ == title_or(track.title@, match stem {
            Some(s) => Some(s@),
            None => None,
        }),
{
    if track.title.is_unknown() {
        match stem {
            Some(s) => s,
            None => String::new(),
        }
    } else {
        owned(track.title.as_str())
    }
}

/// Returns the track's title, falling back to the path's file stem when the
/// title tag is absent, and to an empty string if the path has no file name.
pub fn display_title(track: &Track) -> (r: String)
    ensures
        r@ == title_or(track.title@, file_stem_of(track.path@)),
{
    if track.title.is_unknown() {
        let stem = file_stem(track.path.as_path());
        title_or_stem(track, stem)
    } else {
        title_or_stem(track, None)
    }
}

/// What `Path::file_name` gives for `path`: its final component, if it has
/// one.
pub uninterp spec fn file_name_of(path: Seq<char>) -> Option<Seq<char>>;

/// The final component of `path` (`Path::file_name`), when there is one.
#[verifier::external_body]
fn file_name(path: &str) -> (r: Option<String>)
    ensures
        r matches Some(s) ==> file_name_of(path@) == Some(s@),
        r is None ==> file_name_of(path@) is None,
{
    std::path::Path::new(path).file_name().and_then(|s| s.to_str()).map(|s| s.to_string())
}

/// The player bar's text for the playing track: "artist — title", or, with
/// no artist tag, the title alone, or, with neither tag, the file's name
/// (`"Unknown"` when the path has none).
pub open spec fn now_playing_text(artist: Seq<char>, title: Seq<char>, name: Option<Seq<char>>) -> Seq<
    char,
> {
    if artist.len() == 0 {
        if title.len() == 0 {
            match name {
                Some(n) => n,
                None => "Unknown"@,
            }
        } else {
            title
        }
    } else {
        artist + " \u{2014} "@ + title
    }
}

/// The player bar's text for `track`.
pub fn now_playing_label(track: &Track) -> (r: String)
    ensures
        r@ == now_playing_text(track.artist@, track.title@, file_name_of(track.path@)),
{
    if track.artist.is_unknown() {
        if track.title.is_unknown() {
            match file_name(track.path.as_path()) {
                Some(n) => n,
                None => owned("Unknown"),
            }
        } else {
            owned(track.title.as_str())
        }
    } else {
        let mut r = owned(track.artist.as_str());
        push_str(&mut r, " \u{2014} ");
        push_str(&mut r, track.title.as_str());
        r
    }
}

/// The position label of disc `disc` and track `track` (0 meaning unknown).
pub open spec fn position_label(disc: nat, track: nat) -> Seq<char> {
    if disc == 0 {
        if track == 0 {
            Seq::empty()
        } else {
            decimal(track)
        }
    } else if track == 0 {
        decimal(disc).push('.')
    } else {
        decimal(disc).push('.') + decimal2(track)
    }
}

/// The track's position label. With a disc number it reads `disc.track`
/// with the track zero-padded to two digits (so an album sorts and reads as
/// 1.01, 1.10, 2.01); without one it is just the track number, and it is
/// empty when neither tag is present.
pub fn track_number(track: &Track) -> (r: String)
    ensures
        r@ == position_label(track.disc_number@ as nat, track.track_number@ as nat),
{
    let disc = track.disc_number.value();
    let number = track.track_number.value();
    let mut r = String::new();
    if disc == 0 {
        if number != 0 {
            push_decimal(&mut r, number as u64);
        }
    } else {
        push_decimal(&mut r, disc as u64);
        push_char(&mut r, '.');
        if number != 0 {
            push_decimal2(&mut r, number as u64);
        }
    }
    r
}

/// The heading of an album's drawer.
pub open spec fn heading_of(album: Seq<char>, artist: Seq<char>, year: nat) -> Seq<char> {
    let title = album + " \u{2014} "@ + artist;
    if year == 0 {
        title
    } else {
        title + " ("@ + decimal(year) + ")"@
    }
}

/// The album drawer's heading: "Album — Artist (Year)", the year
/// parenthetical omitted when unknown.
pub fn drawer_heading(summary: &AlbumSummary) -> (r: String)
    ensures
        r@ == heading_of(summary.album@, summary.artist@, summary.year@ as nat),
{
    let mut r = String::new();
    push_str(&mut r, summary.album.as_str());
    push_str(&mut r, " \u{2014} ");
    push_str(&mut r, summary.artist.as_str());
    if summary.year.value() != 0 {
        push_str(&mut r, " (");
        push_decimal(&mut r, summary.year.value() as u64);
        push_str(&mut r, ")");
    }
    r
}

/// The label of the action that queues `count` tracks.
pub open spec fn enqueue_text(count: nat) -> Seq<char> {
    if count == 1 {
        "Add to Queue"@
    } else {
        "Add "@ + decimal(count) + " to Queue"@
    }
}

/// The label of the action that edits `count` tracks.
pub open spec fn edit_text(count: nat) -> Seq<char> {
    if count == 1 {
        "Edit Track\u{2026}"@
    } else {
        "Edit "@ + decimal(count) + " Tracks\u{2026}"@
    }
}

/// The context-menu label for queueing `count` tracks.
pub fn enqueue_label(count: usize) -> (r: String)
    ensures
        r@ == enqueue_text(count as nat),
{
    let mut r = String::new();
    if count == 1 {
        push_str(&mut r, "Add to Queue");
    } else {
        push_str(&mut r, "Add ");
        push_decimal(&mut r, count as u64);
        push_str(&mut r, " to Queue");
    }
    r
}

/// The context-menu label for editing `count` tracks.
pub fn edit_label(count: usize) -> (r: String)
    ensures
        r@ == edit_text(count as nat),
{
    let mut r = String::new();
    if count == 1 {
        push_str(&mut r, "Edit Track\u{2026}");
    } else {
        push_str(&mut r, "Edit ");
        push_decimal(&mut r, count as u64);
        push_str(&mut r, " Tracks\u{2026}");
    }
    r
}

} // verus!
