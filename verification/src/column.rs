//! Column preferences for the track list: which `TrackField`s are visible,
//! in what order, and what each renders — a user-editable [`FormatExpr`]
//! rather than a hard-coded renderer.
use vstd::prelude::*;

use crate::format::all_fields;
use crate::format::FormatExpr;
use crate::format::Node;
use crate::format::TrackField;

verus! {

/// A column as contracts see it: its field, its format, its width.
pub type ColumnView = (TrackField, Seq<Node>, Option<i32>);

/// One visible column: which field it is, and how it renders. `format`
/// defaults to the bare field placeholder (see [`ColumnConfig::default_for`])
/// but the user may customize it to any format string. `width` is `None`
/// until the user drags the header to resize it, meaning "the toolkit's
/// natural size."
#[derive(Debug, PartialEq, Eq)]
pub struct ColumnConfig {
    pub field: TrackField,
    pub format: FormatExpr,
    pub width: Option<i32>,
}

impl View for ColumnConfig {
    type V = ColumnView;

    open spec fn view(&self) -> ColumnView {
        (self.field, self.format@, self.width)
    }
}

/// The default column for `field`: its bare `%field%` placeholder, at the
/// natural width.
pub open spec fn default_column(field: TrackField) -> ColumnView {
    (field, seq![Node::Field(field)], None)
}

impl ColumnConfig {
    /// The default column for `field`: its bare `%field%` placeholder, at
    /// the natural width.
    pub fn default_for(field: TrackField) -> (r: Self)
        ensures
            r@ == default_column(field),
    {
        ColumnConfig { field, format: FormatExpr::field_only(field), width: None }
    }
}

impl Clone for ColumnConfig {
    fn clone(&self) -> (r: Self)
        ensures
            r@ == self@,
    {
        ColumnConfig { field: self.field, format: self.format.clone(), width: self.width }
    }
}

/// The views of `s`, in order.
pub open spec fn columns_view(s: Seq<ColumnConfig>) -> Seq<ColumnView> {
    Seq::new(s.len(), |i: int| s[i]@)
}

/// Whether some column of `s` shows `field`.
pub open spec fn has_field(s: Seq<ColumnView>, field: TrackField) -> bool {
    exists|i: int| 0 <= i < s.len() && #[trigger] s[i].0 == field
}

/// The index of the first column of `s` that shows `field`, if any.
pub open spec fn field_position(s: Seq<ColumnView>, field: TrackField) -> Option<nat>
    decreases s.len(),
{
    if s.len() == 0 {
        None
    } else if s[0].0 == field {
        Some(0)
    } else {
        match field_position(s.drop_first(), field) {
            Some(k) => Some(k + 1),
            None => None,
        }
    }
}

/// The columns the list view showed before columns were customizable, in
/// their long-standing order.
pub open spec fn default_columns() -> Seq<ColumnView> {
    seq![
        default_column(TrackField::Title),
        default_column(TrackField::Artist),
        default_column(TrackField::Album),
        default_column(TrackField::Genre),
        default_column(TrackField::Year),
        default_column(TrackField::Duration),
    ]
}

/// `s` with `field` shown or hidden. Showing appends the field's default
/// column when it is not already shown; hiding drops every column of it.
pub open spec fn with_visible(s: Seq<ColumnView>, field: TrackField, visible: bool) -> Seq<
    ColumnView,
> {
    if visible {
        if has_field(s, field) {
            s
        } else {
            s.push(default_column(field))
        }
    } else {
        s.filter(not_of(field))
    }
}

/// Holds of the columns that do not show `field`.
pub open spec fn not_of(field: TrackField) -> spec_fn(ColumnView) -> bool {
    |c: ColumnView| c.0 != field
}

/// Holds of the fields that `s` does not show.
pub open spec fn hidden_in(s: Seq<ColumnView>) -> spec_fn(TrackField) -> bool {
    |f: TrackField| !has_field(s, f)
}

/// `s` with the column of `dragged` moved to sit immediately before the
/// column of `target` (at the end when `target` is not shown). Unchanged
/// when the two are the same field or `dragged` is not shown.
pub open spec fn moved_before(s: Seq<ColumnView>, dragged: TrackField, target: TrackField) -> Seq<
    ColumnView,
> {
    if dragged == target {
        s
    } else {
        match field_position(s, dragged) {
            None => s,
            Some(from) => {
                let rest = s.remove(from as int);
                let to = match field_position(rest, target) {
                    Some(t) => t as int,
                    None => rest.len() as int,
                };
                rest.insert(to, s[from as int])
            },
        }
    }
}

/// The fields of `all_fields()` that `s` does not show, in canonical order.
pub open spec fn hidden_fields_of(s: Seq<ColumnView>) -> Seq<TrackField> {
    all_fields().filter(hidden_in(s))
}

/// A search that saw `field` first at `i` finds it there.
pub proof fn lemma_field_position_found(s: Seq<ColumnView>, field: TrackField, i: int)
    requires
        0 <= i < s.len(),
        s[i].0 == field,
        forall|j: int| 0 <= j < i ==> s[j].0 != field,
    ensures
        field_position(s, field) == Some(i as nat),
    decreases i,
{
    if i > 0 {
        assert forall|j: int| 0 <= j < i - 1 implies s.drop_first()[j].0 != field by {
            assert(s.drop_first()[j] == s[j + 1]);
        }
        lemma_field_position_found(s.drop_first(), field, i - 1);
    }
}

/// A search that never saw `field` finds nothing.
pub proof fn lemma_field_position_absent(s: Seq<ColumnView>, field: TrackField)
    requires
        forall|j: int| 0 <= j < s.len() ==> s[j].0 != field,
    ensures
        field_position(s, field) == None::<nat>,
    decreases s.len(),
{
    if s.len() > 0 {
        assert forall|j: int| 0 <= j < s.len() - 1 implies s.drop_first()[j].0 != field by {
            assert(s.drop_first()[j] == s[j + 1]);
        }
        lemma_field_position_absent(s.drop_first(), field);
    }
}

/// What `field_position` reports: the first column of the field, if any.
pub proof fn lemma_field_position_spec(s: Seq<ColumnView>, field: TrackField)
    ensures
        match field_position(s, field) {
            Some(p) => p < s.len() && s[p as int].0 == field && forall|j: int|
                0 <= j < p ==> s[j].0 != field,
            None => !has_field(s, field),
        },
    decreases s.len(),
{
    if s.len() > 0 && s[0].0 != field {
        lemma_field_position_spec(s.drop_first(), field);
        match field_position(s.drop_first(), field) {
            Some(k) => {
                assert(s.drop_first()[k as int] == s[k as int + 1]);
                assert forall|j: int| 0 <= j < k + 1 implies s[j].0 != field by {
                    if j > 0 {
                        assert(s.drop_first()[j - 1] == s[j]);
                    }
                }
            },
            None => {
                assert forall|j: int| 0 <= j < s.len() implies s[j].0 != field by {
                    if j > 0 {
                        assert(s.drop_first()[j - 1] == s[j]);
                        if s[j].0 == field {
                            assert(has_field(s.drop_first(), field));
                        }
                    }
                }
            },
        }
    }
}

/// Clones every column of `columns`, in order.
fn clone_columns(columns: &[ColumnConfig]) -> (r: Vec<ColumnConfig>)
    ensures
        columns_view(r@) == columns_view(columns@),
{
    let mut r: Vec<ColumnConfig> = Vec::new();
    let mut i: usize = 0;
    while i < columns.len()
        invariant
            i <= columns@.len(),
            r@.len() == i,
            forall|j: int| 0 <= j < i ==> r@[j]@ == columns@[j]@,
        decreases columns@.len() - i,
    {
        r.push(columns[i].clone());
        i = i + 1;
    }
    assert(columns_view(r@) =~= columns_view(columns@));
    r
}

/// Finds the first column of `columns` that shows `field`.
fn position_of(columns: &Vec<ColumnConfig>, field: TrackField) -> (r: Option<usize>)
    ensures
        match r {
            Some(p) => field_position(columns_view(columns@), field) == Some(p as nat),
            None => field_position(columns_view(columns@), field) == None::<nat>,
        },
{
    let ghost s = columns_view(columns@);
    let mut i: usize = 0;
    while i < columns.len()
        invariant
            i <= columns@.len(),
            s == columns_view(columns@),
            forall|j: int| 0 <= j < i ==> s[j].0 != field,
        decreases columns@.len() - i,
    {
        if columns[i].field == field {
            proof {
                lemma_field_position_found(s, field, i as int);
            }
            return Some(i);
        }
        i = i + 1;
    }
    proof {
        lemma_field_position_absent(s, field);
    }
    None
}

/// The user's chosen visible columns, in display order. A field absent from
/// the list is simply hidden — there is no separate "hidden columns" set to
/// keep in sync.
#[derive(Debug, PartialEq, Eq)]
pub struct ColumnPrefs(Vec<ColumnConfig>);

impl View for ColumnPrefs {
    type V = Seq<ColumnView>;

    closed spec fn view(&self) -> Seq<ColumnView> {
        columns_view(self.0@)
    }
}

impl Clone for ColumnPrefs {
    fn clone(&self) -> (r: Self)
        ensures
            r@ == self@,
    {
        ColumnPrefs(clone_columns(self.0.as_slice()))
    }
}

impl ColumnPrefs {
    /// Builds prefs from an explicit, caller-ordered column list.
    pub fn new(columns: Vec<ColumnConfig>) -> (r: Self)
        ensures
            r@ == columns_view(columns@),
    {
        ColumnPrefs(columns)
    }

    /// The visible columns, in display order.
    pub fn columns(&self) -> (r: &[ColumnConfig])
        ensures
            columns_view(r@) == self@,
    {
        self.0.as_slice()
    }

    /// Whether `field` currently has a visible column.
    pub fn is_visible(&self, field: TrackField) -> (r: bool)
        ensures
            r == has_field(self@, field),
    {
        let found = position_of(&self.0, field);
        proof {
            lemma_field_position_spec(self@, field);
        }
        found.is_some()
    }

    /// These prefs with `field` shown or hidden. Showing appends it (with
    /// its default format) to the end of the visible order; hiding removes
    /// it, custom format and all.
    pub fn with_field_visible(&self, field: TrackField, visible: bool) -> (r: Self)
        ensures
            r@ == with_visible(self@, field, visible),
    {
        let ghost s = self@;
        let mut columns: Vec<ColumnConfig> = clone_columns(self.0.as_slice());
        if visible {
            if !self.is_visible(field) {
                columns.push(ColumnConfig::default_for(field));
                assert(columns_view(columns@) =~= s.push(default_column(field)));
            }
            ColumnPrefs(columns)
        } else {
            let ghost pred = not_of(field);
            let mut kept: Vec<ColumnConfig> = Vec::new();
            let mut i: usize = 0;
            while i < columns.len()
                invariant
                    i <= columns@.len(),
                    columns_view(columns@) == s,
                    pred == not_of(field),
                    columns_view(kept@) == s.take(i as int).filter(pred),
                decreases columns@.len() - i,
            {
                let c = columns[i].clone();
                proof {
                    reveal(Seq::filter);
                    assert(s.take(i + 1).drop_last() == s.take(i as int));
                    assert(s.take(i + 1).last() == s[i as int]);
                }
                if c.field != field {
                    kept.push(c);
                    assert(columns_view(kept@) =~= s.take(i as int).filter(pred).push(
                        s[i as int],
                    ));
                }
                i = i + 1;
            }
            assert(s.take(columns@.len() as int) == s);
            ColumnPrefs(kept)
        }
    }

    /// These prefs with `dragged` moved to sit immediately before `target`
    /// in the visible order — the drop-onto-a-row reorder gesture. Unchanged
    /// when `dragged` and `target` are the same field, or when `dragged`
    /// isn't visible.
    pub fn with_field_moved_before(&self, dragged: TrackField, target: TrackField) -> (r: Self)
        ensures
            r@ == moved_before(self@, dragged, target),
    {
        let ghost s = self@;
        let mut columns: Vec<ColumnConfig> = clone_columns(self.0.as_slice());
        if dragged == target {
            return ColumnPrefs(columns);
        }
        let from = match position_of(&columns, dragged) {
            Some(p) => p,
            None => {
                return ColumnPrefs(columns);
            },
        };
        proof {
            lemma_field_position_spec(s, dragged);
        }
        let moved = columns.remove(from);
        let ghost rest = s.remove(from as int);
        assert(columns_view(columns@) =~= rest);
        let to = match position_of(&columns, target) {
            Some(t) => t,
            None => columns.len(),
        };
        proof {
            lemma_field_position_spec(rest, target);
        }
        columns.insert(to, moved);
        assert(columns_view(columns@) =~= rest.insert(to as int, s[from as int]));
        ColumnPrefs(columns)
    }

    /// The fields without a visible column, in canonical order: the rows a
    /// column picker lists below the visible ones.
    pub fn hidden_fields(&self) -> (r: Vec<TrackField>)
        ensures
            r@ == hidden_fields_of(self@),
    {
        let all = TrackField::all();
        let ghost pred = hidden_in(self@);
        let mut r: Vec<TrackField> = Vec::new();
        let mut i: usize = 0;
        while i < 10
            invariant
                i <= 10,
                all@ == all_fields(),
                all_fields().len() == 10,
                pred == hidden_in(self@),
                r@ == all_fields().take(i as int).filter(pred),
            decreases 10 - i,
        {
            let f = all[i];
            proof {
                reveal(Seq::filter);
                assert(all_fields().take(i + 1).drop_last() == all_fields().take(i as int));
                assert(all_fields().take(i + 1).last() == all_fields()[i as int]);
            }
            if !self.is_visible(f) {
                r.push(f);
            }
            i = i + 1;
        }
        assert(all_fields().take(10) == all_fields());
        r
    }
}

impl Default for ColumnPrefs {
    /// The six columns the list view showed before columns were
    /// customizable, in their long-standing order.
    fn default() -> (r: Self)
        ensures
            r@ == default_columns(),
    {
        let mut v: Vec<ColumnConfig> = Vec::new();
        v.push(ColumnConfig::default_for(TrackField::Title));
        v.push(ColumnConfig::default_for(TrackField::Artist));
        v.push(ColumnConfig::default_for(TrackField::Album));
        v.push(ColumnConfig::default_for(TrackField::Genre));
        v.push(ColumnConfig::default_for(TrackField::Year));
        v.push(ColumnConfig::default_for(TrackField::Duration));
        assert(columns_view(v@) =~= default_columns());
        ColumnPrefs(v)
    }
}

/// Showing a field gives it a visible column.
pub proof fn law_show_makes_visible(s: Seq<ColumnView>, field: TrackField)
    ensures
        has_field(with_visible(s, field, true), field),
{
    if !has_field(s, field) {
        let r = s.push(default_column(field));
        assert(r[s.len() as int].0 == field);
    }
}

/// Showing a field keeps every column already shown, in place.
pub proof fn law_show_keeps_columns(s: Seq<ColumnView>, field: TrackField)
    ensures
        with_visible(s, field, true).take(s.len() as int) == s,
{
    assert(s.push(default_column(field)).take(s.len() as int) =~= s);
    assert(s.take(s.len() as int) =~= s);
}

/// Hiding a field leaves no column of it.
pub proof fn law_hide_makes_hidden(s: Seq<ColumnView>, field: TrackField)
    ensures
        !has_field(with_visible(s, field, false), field),
{
    broadcast use vstd::seq_lib::group_filter_ensures;

    let r = s.filter(not_of(field));
    assert forall|i: int| 0 <= i < r.len() implies r[i].0 != field by {
        assert(not_of(field)(r[i]));
    }
}

/// Showing or hiding one field leaves the visibility of every other field
/// as it was.
pub proof fn law_visibility_keeps_other_fields(
    s: Seq<ColumnView>,
    field: TrackField,
    visible: bool,
    other: TrackField,
)
    requires
        other != field,
    ensures
        has_field(with_visible(s, field, visible), other) == has_field(s, other),
{
    broadcast use vstd::seq_lib::group_filter_ensures;

    let r = with_visible(s, field, visible);
    if visible {
        if !has_field(s, field) {
            let p = s.push(default_column(field));
            if has_field(s, other) {
                let i = choose|i: int| 0 <= i < s.len() && #[trigger] s[i].0 == other;
                assert(p[i] == s[i]);
            }
            if has_field(p, other) {
                let i = choose|i: int| 0 <= i < p.len() && #[trigger] p[i].0 == other;
                assert(i < s.len());
                assert(p[i] == s[i]);
            }
        }
    } else {
        if has_field(s, other) {
            let i = choose|i: int| 0 <= i < s.len() && #[trigger] s[i].0 == other;
            assert(not_of(field)(s[i]));
            assert(r.contains(s[i]));
            let j = choose|j: int| 0 <= j < r.len() && r[j] == s[i];
            assert(r[j].0 == other);
        }
        if has_field(r, other) {
            let j = choose|j: int| 0 <= j < r.len() && #[trigger] r[j].0 == other;
            assert(r.contains(r[j]));
            s.lemma_filter_contains_rev(not_of(field), r[j]);
            let i = choose|i: int| 0 <= i < s.len() && s[i] == r[j];
            assert(s[i].0 == other);
        }
    }
}

/// Moving a column reorders the columns and nothing more: the result holds
/// the same columns, each as often as before.
pub proof fn law_move_is_a_permutation(s: Seq<ColumnView>, dragged: TrackField, target: TrackField)
    ensures
        moved_before(s, dragged, target).to_multiset() == s.to_multiset(),
{
    broadcast use vstd::seq_lib::group_to_multiset_ensures;
    broadcast use vstd::multiset::group_multiset_axioms;

    if dragged != target {
        lemma_field_position_spec(s, dragged);
        match field_position(s, dragged) {
            None => {},
            Some(from) => {
                let x = s[from as int];
                let rest = s.remove(from as int);
                lemma_field_position_spec(rest, target);
                let to = match field_position(rest, target) {
                    Some(t) => t as int,
                    None => rest.len() as int,
                };
                assert(rest.to_multiset() == s.to_multiset().remove(x));
                assert(rest.insert(to, x).to_multiset() == rest.to_multiset().insert(x));
                assert(s.to_multiset().count(x) > 0) by {
                    assert(s.contains(x));
                }
                assert(s.to_multiset().remove(x).insert(x) =~= s.to_multiset());
            },
        }
    }
}

/// When both fields are shown and differ, the moved column lands directly
/// in front of the target's column.
pub proof fn law_move_lands_before_target(
    s: Seq<ColumnView>,
    dragged: TrackField,
    target: TrackField,
)
    requires
        dragged != target,
        has_field(s, dragged),
        has_field(s, target),
    ensures
        exists|k: int|
            0 <= k && k + 1 < moved_before(s, dragged, target).len() && (#[trigger] moved_before(
                s,
                dragged,
                target,
            )[k]).0 == dragged && moved_before(s, dragged, target)[k + 1].0 == target,
{
    lemma_field_position_spec(s, dragged);
    let from = field_position(s, dragged).unwrap() as int;
    let rest = s.remove(from);
    lemma_field_position_spec(rest, target);
    let ti = choose|i: int| 0 <= i < s.len() && #[trigger] s[i].0 == target;
    assert(ti != from);
    if ti < from {
        assert(rest[ti] == s[ti]);
    } else {
        assert(rest[ti - 1] == s[ti]);
    }
    assert(has_field(rest, target)) by {
        if ti < from {
            assert(rest[ti].0 == target);
        } else {
            assert(rest[ti - 1].0 == target);
        }
    }
    let to = field_position(rest, target).unwrap() as int;
    let r = rest.insert(to, s[from]);
    assert(r[to] == s[from]);
    assert(r[to + 1] == rest[to]);
    assert(r == moved_before(s, dragged, target));
    assert(r[to].0 == dragged && r[to + 1].0 == target);
}

/// Every field is listed as hidden exactly when it has no visible column.
pub proof fn law_hidden_fields_complement(s: Seq<ColumnView>, field: TrackField)
    ensures
        hidden_fields_of(s).contains(field) <==> !has_field(s, field),
{
    broadcast use vstd::seq_lib::group_filter_ensures;

    let h = hidden_fields_of(s);
    let i: int = match field {
        TrackField::Title => 0,
        TrackField::Artist => 1,
        TrackField::AlbumArtist => 2,
        TrackField::Album => 3,
        TrackField::Genre => 4,
        TrackField::Composer => 5,
        TrackField::TrackNumber => 6,
        TrackField::DiscNumber => 7,
        TrackField::Year => 8,
        TrackField::Duration => 9,
    };
    assert(all_fields()[i] == field);
    if !has_field(s, field) {
        assert(hidden_in(s)(all_fields()[i]));
    }
    if h.contains(field) {
        let j = choose|j: int| 0 <= j < h.len() && h[j] == field;
        assert(hidden_in(s)(h[j]));
    }
}

} // verus!
