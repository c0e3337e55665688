//! The album grid's layout arithmetic, its inline track drawer, and the
//! multi-selection of covers made with ctrl- and shift-clicks.
use vstd::prelude::*;

use std::collections::BTreeSet;

verus! {

/// Columns the grid shows before its first width-driven reflow.
pub const DEFAULT_COLUMNS: usize = 4;

/// Per-cover horizontal budget beyond the cover itself (cell padding and
/// inter-cover spacing), in pixels.
pub const COVER_SLOT_EXTRA: i32 = 34;

/// Combined left and right margin of the grid container, in pixels.
pub const GRID_MARGIN_TOTAL: i32 = 12;

/// Cover side length used until a saved or chosen size is applied.
pub const DEFAULT_COVER_SIZE: i32 = 200;

/// Integer division rounding toward zero, as machine division does.
pub open spec fn trunc_div(a: int, b: int) -> int {
    if a >= 0 {
        if b > 0 {
            a / b
        } else {
            -(a / -b)
        }
    } else {
        if b > 0 {
            -((-a) / b)
        } else {
            (-a) / (-b)
        }
    }
}

/// How many covers of `cover_size` fit a viewport `page_width` wide: the
/// width left after the margins, divided (rounding toward zero) by the
/// cover's slot, and at least one.
pub open spec fn columns_fitting(page_width: int, cover_size: int) -> int {
    let q: int = trunc_div(page_width - GRID_MARGIN_TOTAL, cover_size + COVER_SLOT_EXTRA);
    if q < 1 {
        1
    } else {
        q
    }
}

/// How many covers of `cover_size` fit a viewport `page_width` pixels wide
/// (at least one).
pub fn columns_for(page_width: i32, cover_size: i32) -> (r: usize)
    requires
        page_width >= i32::MIN + GRID_MARGIN_TOTAL,
        cover_size <= i32::MAX - COVER_SLOT_EXTRA,
        cover_size + COVER_SLOT_EXTRA != 0,
        !(page_width - GRID_MARGIN_TOTAL == i32::MIN && cover_size + COVER_SLOT_EXTRA == -1),
    ensures
        r == columns_fitting(page_width as int, cover_size as int),
{
    let available: i64 = (page_width - GRID_MARGIN_TOTAL) as i64;
    let slot: i64 = (cover_size + COVER_SLOT_EXTRA) as i64;
    let q: i64 = if available >= 0 {
        if slot > 0 {
            available / slot
        } else {
            -(available / -slot)
        }
    } else {
        if slot > 0 {
            -((-available) / slot)
        } else {
            (-available) / (-slot)
        }
    };
    proof {
        let n: int = if available >= 0 { available as int } else { -available };
        let d: int = if slot > 0 { slot as int } else { -slot };
        assert(n / d <= n) by (nonlinear_arith)
            requires
                n >= 0,
                d >= 1,
        ;
    }
    if q < 1 {
        1
    } else {
        q as usize
    }
}

/// The row of the grid that the cover at `index` sits in, beneath which its
/// drawer opens.
pub fn drawer_row(index: usize, columns: usize) -> (r: usize)
    requires
        columns > 0,
    ensures
        r == index / columns,
{
    index / columns
}

/// The drawer open after activating the cover at `index`, of `count`
/// covers, when `open` was: activating the open cover closes its drawer;
/// any other existing cover gets its drawer opened in place of whatever was
/// open; a cover past the end opens nothing.
pub open spec fn drawer_after(open: Option<usize>, index: usize, count: usize) -> Option<usize> {
    if open == Some(index) || index >= count {
        None
    } else {
        Some(index)
    }
}

/// Which cover's drawer is open after activating the cover at `index`, of
/// `count` covers, when `open` was.
pub fn toggled_drawer(open: Option<usize>, index: usize, count: usize) -> (r: Option<usize>)
    ensures
        r == drawer_after(open, index, count),
{
    if open == Some(index) || index >= count {
        None
    } else {
        Some(index)
    }
}

/// The covers from `a` to `b`, both included.
pub open spec fn cover_range(a: usize, b: usize) -> Set<usize> {
    Set::new(|i: usize| a <= i <= b)
}

/// `s` with the membership of `index` flipped.
pub open spec fn toggled(s: Set<usize>, index: usize) -> Set<usize> {
    if s.contains(index) {
        s.remove(index)
    } else {
        s.insert(index)
    }
}

/// The anchor a shift-click on `index` ranges from: the existing one, or
/// `index` itself.
pub open spec fn shift_anchor(anchor: Option<usize>, index: usize) -> usize {
    match anchor {
        Some(a) => a,
        None => index,
    }
}

/// The covers between `a` and `b`, both included, in whichever order.
pub open spec fn span(a: usize, b: usize) -> Set<usize> {
    if a <= b {
        cover_range(a, b)
    } else {
        cover_range(b, a)
    }
}

/// The multi-selection as contracts see it: the selected covers, and the
/// point shift-clicks range from.
pub struct SelectionView {
    pub selected: Set<usize>,
    pub anchor: Option<usize>,
}

/// The covers multi-selected with ctrl- and shift-clicks, and the anchor of
/// the last definite click, from which a shift-click ranges.
#[derive(Debug)]
pub struct GridSelection {
    selected: BTreeSet<usize>,
    anchor: Option<usize>,
}

impl View for GridSelection {
    type V = SelectionView;

    closed spec fn view(&self) -> SelectionView {
        SelectionView { selected: self.selected@, anchor: self.anchor }
    }
}

impl GridSelection {
    /// Nothing selected and no anchor, as after the grid is filled anew.
    pub fn new() -> (r: Self)
        ensures
            r@.selected == Set::<usize>::empty(),
            r@.anchor is None,
    {
        GridSelection { selected: BTreeSet::new(), anchor: None }
    }

    /// Whether the cover at `index` is multi-selected.
    pub fn is_selected(&self, index: usize) -> (r: bool)
        ensures
            r == self@.selected.contains(index),
    {
        broadcast use vstd::laws_cmp::group_laws_cmp;
        broadcast use vstd::std_specs::btree::group_btree_axioms;

        self.selected.contains(&index)
    }

    /// How many covers are selected.
    pub fn len(&self) -> (r: usize)
        ensures
            r == self@.selected.len(),
    {
        broadcast use vstd::laws_cmp::group_laws_cmp;
        broadcast use vstd::std_specs::btree::group_btree_axioms;

        self.selected.len()
    }

    /// The anchor a shift-click ranges from, if any.
    pub fn anchor(&self) -> (r: Option<usize>)
        ensures
            r == self@.anchor,
    {
        self.anchor
    }

    /// A ctrl-click: adds the cover at `index` to the selection, or removes
    /// it if it was selected, and makes it the anchor.
    pub fn ctrl_toggle(&mut self, index: usize)
        ensures
            final(self)@.selected == toggled(old(self)@.selected, index),
            final(self)@.anchor == Some(index),
    {
        broadcast use vstd::laws_cmp::group_laws_cmp;
        broadcast use vstd::std_specs::btree::group_btree_axioms;

        if !self.selected.remove(&index) {
            self.selected.insert(index);
        }
        self.anchor = Some(index);
    }

    /// A shift-click: selects exactly the covers between the anchor and
    /// `index`, both included. Without an anchor, `index` becomes the anchor
    /// first; an existing anchor never moves.
    pub fn shift_select(&mut self, index: usize)
        ensures
            final(self)@.anchor == Some(shift_anchor(old(self)@.anchor, index)),
            final(self)@.selected == span(shift_anchor(old(self)@.anchor, index), index),
    {
        broadcast use vstd::laws_cmp::group_laws_cmp;
        broadcast use vstd::std_specs::btree::group_btree_axioms;

        let anchor: usize = match self.anchor {
            Some(a) => a,
            None => index,
        };
        self.anchor = Some(anchor);
        let (start, end) = if anchor <= index {
            (anchor, index)
        } else {
            (index, anchor)
        };
        let mut range: BTreeSet<usize> = BTreeSet::new();
        range.insert(start);
        let mut i: usize = start;
        assert(range@ =~= cover_range(start, i));
        while i < end
            invariant
                start <= i <= end,
                range@ == cover_range(start, i),
            decreases end - i,
        {
            i = i + 1;
            range.insert(i);
            assert(range@ =~= cover_range(start, i));
        }
        self.selected = range;
    }

    /// A plain click: clears the selection and makes `index` the anchor of
    /// a later shift-click.
    pub fn clear_at(&mut self, index: usize)
        ensures
            final(self)@.selected == Set::<usize>::empty(),
            final(self)@.anchor == Some(index),
    {
        self.selected.clear();
        self.anchor = Some(index);
    }

    /// A click elsewhere in the application: clears the selection and
    /// leaves the anchor where it was.
    pub fn clear(&mut self)
        ensures
            final(self)@.selected == Set::<usize>::empty(),
            final(self)@.anchor == old(self)@.anchor,
    {
        self.selected.clear();
    }
}

/// The grid as contracts see it: how many covers it holds, how many columns
/// they are laid out in, whose drawer is open, and the multi-selection.
pub struct CoverGridView {
    pub count: nat,
    pub columns: nat,
    pub drawer: Option<usize>,
    pub selected: Set<usize>,
    pub anchor: Option<usize>,
}

/// What every state of the grid satisfies: it has at least one column; an
/// open drawer, the selection and the anchor all name existing covers; and
/// an open drawer and a multi-selection never coexist.
pub open spec fn settled(g: CoverGridView) -> bool {
    &&& g.columns >= 1
    &&& (match g.drawer {
        Some(i) => i < g.count,
        None => true,
    })
    &&& (match g.anchor {
        Some(a) => a < g.count,
        None => true,
    })
    &&& forall|k: usize| #[trigger] g.selected.contains(k) ==> k < g.count
    &&& g.drawer is Some ==> g.selected == Set::<usize>::empty()
}

/// The selected covers below `k`, in grid order.
pub open spec fn selected_below(selected: Set<usize>, k: nat) -> Seq<usize>
    decreases k,
{
    if k == 0 {
        Seq::empty()
    } else {
        let rest = selected_below(selected, (k - 1) as nat);
        if selected.contains((k - 1) as usize) {
            rest.push((k - 1) as usize)
        } else {
            rest
        }
    }
}

/// The album grid's interaction state: its covers, its layout, its inline
/// drawer, and its multi-selection.
#[derive(Debug)]
pub struct CoverGrid {
    count: usize,
    columns: usize,
    drawer: Option<usize>,
    selection: GridSelection,
}

impl View for CoverGrid {
    type V = CoverGridView;

    closed spec fn view(&self) -> CoverGridView {
        CoverGridView {
            count: self.count as nat,
            columns: self.columns as nat,
            drawer: self.drawer,
            selected: self.selection@.selected,
            anchor: self.selection@.anchor,
        }
    }
}

impl CoverGrid {
    /// An empty grid in its default column count.
    pub fn new() -> (r: Self)
        ensures
            settled(r@),
            r@.count == 0,
            r@.columns == DEFAULT_COLUMNS,
            r@.drawer is None,
            r@.selected == Set::<usize>::empty(),
            r@.anchor is None,
    {
        CoverGrid { count: 0, columns: DEFAULT_COLUMNS, drawer: None, selection: GridSelection::new() }
    }

    /// Fills the grid with `count` covers laid out in `columns` columns:
    /// any drawer closes and the selection and its anchor are forgotten,
    /// since every index changes meaning.
    pub fn set_albums(&mut self, count: usize, columns: usize)
        requires
            columns >= 1,
        ensures
            settled(final(self)@),
            final(self)@.count == count,
            final(self)@.columns == columns,
            final(self)@.drawer is None,
            final(self)@.selected == Set::<usize>::empty(),
            final(self)@.anchor is None,
    {
        self.count = count;
        self.columns = columns;
        self.drawer = None;
        self.selection = GridSelection::new();
    }

    /// Lays the covers out in `columns` columns; a change of the column
    /// count closes the drawer, whose row no longer exists.
    pub fn reflow(&mut self, columns: usize)
        requires
            settled(old(self)@),
            columns >= 1,
        ensures
            settled(final(self)@),
            final(self)@.columns == columns,
            final(self)@.drawer == (if columns == old(self)@.columns {
                old(self)@.drawer
            } else {
                None
            }),
            final(self)@.count == old(self)@.count,
            final(self)@.selected == old(self)@.selected,
            final(self)@.anchor == old(self)@.anchor,
    {
        if columns != self.columns {
            self.drawer = None;
            self.columns = columns;
        }
        assert forall|k: usize| #[trigger] self@.selected.contains(k) implies k < self@.count by {
            assert(old(self)@.selected.contains(k));
        }
    }

    /// A press on the cover at `index`, the `n_press`th of a click run,
    /// with the shift and ctrl keys as given. Only the first press acts: a
    /// shift-press closes the drawer and ranges the selection from the
    /// anchor; a ctrl-press closes the drawer and toggles the cover; a plain
    /// press clears the selection, anchors it at the cover, and toggles the
    /// cover's drawer.
    pub fn press(&mut self, index: usize, n_press: u32, shift: bool, ctrl: bool)
        requires
            settled(old(self)@),
            index < old(self)@.count,
        ensures
            settled(final(self)@),
            final(self)@.count == old(self)@.count,
            final(self)@.columns == old(self)@.columns,
            n_press != 1 ==> final(self)@ == old(self)@,
            n_press == 1 && shift ==> {
                &&& final(self)@.drawer is None
                &&& final(self)@.anchor == Some(shift_anchor(old(self)@.anchor, index))
                &&& final(self)@.selected == span(shift_anchor(old(self)@.anchor, index), index)
            },
            n_press == 1 && !shift && ctrl ==> {
                &&& final(self)@.drawer is None
                &&& final(self)@.anchor == Some(index)
                &&& final(self)@.selected == toggled(old(self)@.selected, index)
            },
            n_press == 1 && !shift && !ctrl ==> {
                &&& final(self)@.drawer == drawer_after(
                    old(self)@.drawer,
                    index,
                    old(self)@.count as usize,
                )
                &&& final(self)@.anchor == Some(index)
                &&& final(self)@.selected == Set::<usize>::empty()
            },
    {
        if n_press != 1 {
            return;
        }
        if shift {
            self.drawer = None;
            self.selection.shift_select(index);
        } else if ctrl {
            self.drawer = None;
            self.selection.ctrl_toggle(index);
        } else {
            self.selection.clear_at(index);
            self.drawer = toggled_drawer(self.drawer, index, self.count);
        }
        assert forall|k: usize| #[trigger] self@.selected.contains(k) implies k < self@.count by {
            if !shift && ctrl && k != index {
                assert(old(self)@.selected.contains(k));
            }
        }
    }

    /// A click anywhere else in the application: the multi-selection is
    /// cleared; the drawer stays as it is.
    pub fn click_elsewhere(&mut self)
        requires
            settled(old(self)@),
        ensures
            settled(final(self)@),
            final(self)@.selected == Set::<usize>::empty(),
            final(self)@.drawer == old(self)@.drawer,
            final(self)@.anchor == old(self)@.anchor,
            final(self)@.count == old(self)@.count,
            final(self)@.columns == old(self)@.columns,
    {
        self.selection.clear();
    }

    /// The cover whose drawer is open, if any.
    pub fn drawer(&self) -> (r: Option<usize>)
        ensures
            r == self@.drawer,
    {
        self.drawer
    }

    /// The grid row beneath which the open drawer sits, if one is open.
    pub fn drawer_row(&self) -> (r: Option<usize>)
        requires
            settled(self@),
        ensures
            r == (match self@.drawer {
                Some(i) => Some((i as nat / self@.columns) as usize),
                None => None,
            }),
    {
        match self.drawer {
            Some(i) => Some(drawer_row(i, self.columns)),
            None => None,
        }
    }

    /// Whether the cover at `index` is multi-selected.
    pub fn is_selected(&self, index: usize) -> (r: bool)
        ensures
            r == self@.selected.contains(index),
    {
        self.selection.is_selected(index)
    }

    /// The covers a right-click on the cover at `index` acts on as a batch:
    /// every selected cover, in grid order, when `index` is one of several
    /// selected covers; `None` (the cover's own album alone) otherwise.
    pub fn batch_for(&self, index: usize) -> (r: Option<Vec<usize>>)
        ensures
            r is Some <==> (self@.selected.contains(index) && self@.selected.len() > 1),
            r matches Some(v) ==> v@ == selected_below(self@.selected, self@.count),
    {
        if !self.selection.is_selected(index) || self.selection.len() <= 1 {
            return None;
        }
        let mut all: Vec<usize> = Vec::new();
        let mut k: usize = 0;
        while k < self.count
            invariant
                k <= self@.count,
                all@ == selected_below(self@.selected, k as nat),
            decreases self@.count - k,
        {
            if self.selection.is_selected(k) {
                all.push(k);
            }
            k = k + 1;
        }
        Some(all)
    }
}

/// A batch lists every selected cover below `count` exactly once, in grid
/// order: its entries rise strictly, and a cover is among them exactly when
/// it exists and is selected.
pub proof fn law_batch_lists_each_selected_cover_once(selected: Set<usize>, count: nat)
    requires
        count <= usize::MAX + 1,
    ensures
        forall|i: int, j: int|
            0 <= i < j < selected_below(selected, count).len() ==> selected_below(selected, count)[i]
                < selected_below(selected, count)[j],
        forall|i: int|
            0 <= i < selected_below(selected, count).len() ==> selected_below(selected, count)[i]
                < count,
        forall|k: usize|
            #[trigger] selected_below(selected, count).contains(k) <==> (k < count
                && selected.contains(k)),
    decreases count,
{
    if count > 0 {
        let m: nat = (count - 1) as nat;
        law_batch_lists_each_selected_cover_once(selected, m);
        let rest = selected_below(selected, m);
        let all = selected_below(selected, count);
        assert forall|k: usize| #[trigger] all.contains(k) <==> (k < count && selected.contains(k)) by {
            if selected.contains(m as usize) {
                assert(all == rest.push(m as usize));
                if all.contains(k) && k != m as usize {
                    let p: int = choose|p: int| 0 <= p < all.len() && all[p] == k;
                    assert(rest[p] == k);
                    assert(rest.contains(k));
                }
                if k < count && selected.contains(k) {
                    if k == m as usize {
                        assert(all[all.len() - 1] == k);
                    } else {
                        assert(rest.contains(k));
                        let p: int = choose|p: int| 0 <= p < rest.len() && rest[p] == k;
                        assert(all[p] == k);
                    }
                }
            }
        }
    }
}

/// Two ctrl-clicks on one cover leave the selection as it was.
pub proof fn law_ctrl_toggle_twice_restores_selection(s: Set<usize>, index: usize)
    ensures
        toggled(toggled(s, index), index) == s,
{
    assert(toggled(toggled(s, index), index) =~= s);
}

/// A shift-click selects the anchor, the clicked cover, and every cover
/// between them, and nothing else.
pub proof fn law_shift_range_holds_both_ends(a: usize, index: usize)
    ensures
        span(a, index).contains(a),
        span(a, index).contains(index),
        forall|i: usize| #[trigger]
            span(a, index).contains(i) <==> (a <= i <= index || index <= i <= a),
{
}

/// Repeated shift-clicks range from the same anchor: once set, a shift-click
/// never moves it.
pub proof fn law_shift_keeps_the_anchor(anchor: usize, index: usize)
    ensures
        shift_anchor(Some(anchor), index) == anchor,
{
}

/// Activating the same existing cover twice, starting with no drawer open,
/// opens its drawer and then closes it again.
pub proof fn law_drawer_toggle_twice_closes(index: usize, count: usize)
    requires
        index < count,
    ensures
        drawer_after(None, index, count) == Some(index),
        drawer_after(drawer_after(None, index, count), index, count) is None,
{
}

} // verus!
