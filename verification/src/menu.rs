//! The right-click menu of a track row: which actions it offers, over which
//! tracks, under which labels.
use vstd::prelude::*;

use crate::text::decimal;
use crate::text::push_decimal;
use crate::text::push_str;
use crate::track::Track;
use crate::ui::edit_label;
use crate::ui::edit_text;
use crate::ui::enqueue_label;
use crate::ui::enqueue_text;

verus! {

/// An action a track row's menu offers.
#[derive(Debug, Clone, Copy, PartialEq, Eq, Structural)]
pub enum MenuAction {
    /// Add the tracks to the play queue.
    Enqueue,
    /// Open the editor on the tracks.
    Edit,
}

/// One labelled entry of the menu.
#[derive(Debug)]
pub struct MenuEntry {
    pub action: MenuAction,
    pub label: String,
}

impl View for MenuEntry {
    type V = (MenuAction, Seq<char>);

    open spec fn view(&self) -> (MenuAction, Seq<char>) {
        (self.action, self.label@)
    }
}

/// The menu of a track row: the tracks every action applies to, and the
/// entries in the order they are shown.
#[derive(Debug)]
pub struct TrackMenu {
    pub tracks: Vec<Track>,
    pub entries: Vec<MenuEntry>,
}

/// The entries of a menu over `count` tracks: queueing, when a queueing
/// handler is registered, then editing, when an editing handler is.
pub open spec fn menu_entries(can_enqueue: bool, can_edit: bool, count: nat) -> Seq<
    (MenuAction, Seq<char>),
> {
    (if can_enqueue {
        seq![(MenuAction::Enqueue, enqueue_text(count))]
    } else {
        Seq::empty()
    }) + (if can_edit {
        seq![(MenuAction::Edit, edit_text(count))]
    } else {
        Seq::empty()
    })
}

/// The tracks a row's actions apply to: the whole multi-selection the row
/// belongs to, or the row's own track alone.
pub open spec fn menu_tracks(track: Track, batch: Option<Seq<Track>>) -> Seq<Track> {
    match batch {
        Some(b) => b,
        None => seq![track],
    }
}

/// The right-click menu of the row of `track`: a row that is part of a
/// wider multi-selection (`batch`) offers actions over the whole selection
/// ("Add N to Queue", "Edit N Tracks…"); any other row offers them for its
/// own track ("Add to Queue", "Edit Track…"). An action appears only when a
/// handler for it is registered.
pub fn track_menu(track: &Track, batch: Option<Vec<Track>>, can_enqueue: bool, can_edit: bool) -> (r:
    TrackMenu)
    ensures
        r.tracks@ == menu_tracks(
            *track,
            match batch {
                Some(b) => Some(b@),
                None => None,
            },
        ),
        r.entries@.map_values(|e: MenuEntry| e@) == menu_entries(
            can_enqueue,
            can_edit,
            r.tracks@.len(),
        ),
{
    let tracks = match batch {
        Some(b) => b,
        None => vec![track.clone()],
    };
    let count: usize = tracks.len();
    let mut entries: Vec<MenuEntry> = Vec::new();
    if can_enqueue {
        entries.push(MenuEntry { action: MenuAction::Enqueue, label: enqueue_label(count) });
    }
    if can_edit {
        entries.push(MenuEntry { action: MenuAction::Edit, label: edit_label(count) });
    }
    assert(entries@.map_values(|e: MenuEntry| e@) =~= menu_entries(
        can_enqueue,
        can_edit,
        count as nat,
    ));
    TrackMenu { tracks, entries }
}

/// The labels of an album cover's menu: queueing and editing the whole
/// multi-selection of `n` albums when the cover belongs to one (`batch`),
/// else the cover's own album.
pub open spec fn album_menu_texts(batch: Option<usize>) -> (Seq<char>, Seq<char>) {
    match batch {
        Some(n) => (
            "Add "@ + decimal(n as nat) + " Albums to Queue"@,
            "Edit "@ + decimal(n as nat) + " Albums\u{2026}"@,
        ),
        None => ("Add to Queue"@, "Edit Album\u{2026}"@),
    }
}

/// The queueing and editing labels of an album cover's right-click menu.
pub fn album_menu_labels(batch: Option<usize>) -> (r: (String, String))
    ensures
        (r.0@, r.1@) == album_menu_texts(batch),
{
    let mut enqueue = String::new();
    let mut edit = String::new();
    match batch {
        Some(n) => {
            push_str(&mut enqueue, "Add ");
            push_decimal(&mut enqueue, n as u64);
            push_str(&mut enqueue, " Albums to Queue");
            push_str(&mut edit, "Edit ");
            push_decimal(&mut edit, n as u64);
            push_str(&mut edit, " Albums\u{2026}");
        },
        None => {
            push_str(&mut enqueue, "Add to Queue");
            push_str(&mut edit, "Edit Album\u{2026}");
        },
    }
    (enqueue, edit)
}

/// Holds of row `i`.
pub open spec fn is_row(i: usize) -> spec_fn(usize) -> bool {
    |x: usize| x == i
}

/// How often row `i` occurs in the selection `selected`.
pub open spec fn times_selected(selected: Seq<usize>, i: usize) -> nat {
    selected.filter(is_row(i)).len()
}

/// The tracks of the selected rows below `k`, in ascending row order, each
/// as often as its row is selected.
pub open spec fn batch_below(selected: Seq<usize>, tracks: Seq<Track>, k: nat) -> Seq<Track>
    decreases k,
{
    if k == 0 {
        Seq::empty()
    } else {
        batch_below(selected, tracks, (k - 1) as nat) + Seq::new(
            times_selected(selected, (k - 1) as usize),
            |_j: int| tracks[k - 1],
        )
    }
}

/// The batch a right-click on row `row` of a drawer's track list acts on:
/// when the row is one of two or more selected rows, the tracks of the
/// selected rows in ascending row order; otherwise none, and the selection
/// collapses to the row.
pub open spec fn row_batch_of(selected: Seq<usize>, row: usize, tracks: Seq<Track>) -> Option<
    Seq<Track>,
> {
    if selected.contains(row) && selected.len() > 1 {
        Some(batch_below(selected, tracks, tracks.len()))
    } else {
        None
    }
}

/// How often `i` occurs in `selected`.
fn count_selected(selected: &[usize], i: usize) -> (r: usize)
    ensures
        r == times_selected(selected@, i),
{
    let ghost pred = is_row(i);
    let mut c: usize = 0;
    let mut j: usize = 0;
    while j < selected.len()
        invariant
            j <= selected@.len(),
            pred == is_row(i),
            c == selected@.take(j as int).filter(pred).len(),
            c <= j,
        decreases selected@.len() - j,
    {
        proof {
            reveal(Seq::filter);
            assert(selected@.take(j + 1).drop_last() =~= selected@.take(j as int));
        }
        if selected[j] == i {
            c = c + 1;
        }
        j = j + 1;
    }
    assert(selected@.take(selected@.len() as int) =~= selected@);
    c
}

/// The batch a right-click on row `row` of a drawer's track list acts on,
/// given the selected rows and the drawer's tracks.
pub fn row_batch(selected: &[usize], row: usize, tracks: &[Track]) -> (r: Option<Vec<Track>>)
    ensures
        match r {
            Some(v) => row_batch_of(selected@, row, tracks@) == Some(v@),
            None => row_batch_of(selected@, row, tracks@) is None,
        },
{
    let mut found = false;
    let mut j: usize = 0;
    while j < selected.len()
        invariant
            j <= selected@.len(),
            found <==> exists|k: int| 0 <= k < j && selected@[k] == row,
        decreases selected@.len() - j,
    {
        if selected[j] == row {
            found = true;
        }
        j = j + 1;
    }
    if !found || selected.len() <= 1 {
        return None;
    }
    let mut out: Vec<Track> = Vec::new();
    let mut i: usize = 0;
    while i < tracks.len()
        invariant
            i <= tracks@.len(),
            out@ == batch_below(selected@, tracks@, i as nat),
        decreases tracks@.len() - i,
    {
        let c: usize = count_selected(selected, i);
        let ghost before = out@;
        let mut k: usize = 0;
        while k < c
            invariant
                k <= c,
                i < tracks@.len(),
                out@ == before + Seq::new(k as nat, |_j: int| tracks@[i as int]),
            decreases c - k,
        {
            out.push(tracks[i].clone());
            assert(out@ =~= before + Seq::new((k + 1) as nat, |_j: int| tracks@[i as int]));
            k = k + 1;
        }
        assert(out@ =~= batch_below(selected@, tracks@, (i + 1) as nat));
        i = i + 1;
    }
    Some(out)
}

} // verus!
