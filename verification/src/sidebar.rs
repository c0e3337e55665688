//! The library sidebar: which filter fields it shows, where a category that
//! comes into view takes its place, and which row is selected as the filter.
use vstd::prelude::*;

use crate::filter::all_filter_fields;
use crate::filter::filter_for;
use crate::filter::filter_index;
use crate::filter::FilterField;
use crate::filter::FilterView;
use crate::filter::LibraryFilter;
use crate::text::owned;
use crate::text::same_text;

verus! {

/// The fields whose categories are shown, given the visibility of each
/// category by field position, in canonical order.
pub open spec fn shown_fields(visible: Seq<bool>) -> Seq<FilterField> {
    all_filter_fields().filter(|f: FilterField| visible[filter_index(f) as int])
}

/// The fields whose categories are visible, in the sidebar's canonical
/// order; `visible` holds each category's visibility by field position.
pub fn active_fields(visible: &[bool; 5]) -> (r: Vec<FilterField>)
    ensures
        r@ == shown_fields(visible@),
{
    let all = FilterField::all();
    let ghost pred = |f: FilterField| visible@[filter_index(f) as int];
    let mut r: Vec<FilterField> = Vec::new();
    let mut i: usize = 0;
    while i < 5
        invariant
            i <= 5,
            all@ == all_filter_fields(),
            pred == (|f: FilterField| visible@[filter_index(f) as int]),
            r@ == all@.take(i as int).filter(pred),
        decreases 5 - i,
    {
        let f = all[i];
        proof {
            reveal(Seq::filter);
            assert(all@.take(i + 1).drop_last() =~= all@.take(i as int));
            assert(all@.take(i + 1).last() == f);
        }
        if visible[f.index()] {
            r.push(f);
        }
        i = i + 1;
    }
    assert(all@.take(5) =~= all@);
    r
}

/// The first category after `id` that is shown, if any.
pub open spec fn next_shown(shown: Seq<bool>, id: int) -> Option<int>
    decreases shown.len() - id,
{
    if id >= shown.len() - 1 {
        None
    } else if shown[id + 1] {
        Some(id + 1)
    } else {
        next_shown(shown, id + 1)
    }
}

/// The first category after `id` that is shown: a category coming into view
/// is inserted right before it, or last when there is none.
pub fn next_shown_after(shown: &[bool], id: usize) -> (r: Option<usize>)
    requires
        id < shown@.len(),
    ensures
        match r {
            Some(j) => next_shown(shown@, id as int) == Some(j as int),
            None => next_shown(shown@, id as int) is None,
        },
        r matches Some(j) ==> id < j < shown@.len() && shown@[j as int] && forall|k: int|
            id < k < j ==> !shown@[k],
        r is None ==> forall|k: int| id < k < shown@.len() ==> !shown@[k],
    decreases shown@.len() - id,
{
    if id >= shown.len() - 1 {
        None
    } else if shown[id + 1] {
        Some(id + 1)
    } else {
        next_shown_after(shown, id + 1)
    }
}

/// The selected row after activating the row `value` of `field` when
/// `current` was selected: activating the selected row again deselects it;
/// any other row becomes the selection.
pub open spec fn after_activate(
    current: Option<(FilterField, Seq<char>)>,
    field: FilterField,
    value: Seq<char>,
) -> Option<(FilterField, Seq<char>)> {
    if current == Some((field, value)) {
        None
    } else {
        Some((field, value))
    }
}

/// The selected row after hiding or showing `field`'s category: hiding the
/// category of the selected row forgets the selection.
pub open spec fn after_visibility(
    current: Option<(FilterField, Seq<char>)>,
    field: FilterField,
    active: bool,
) -> Option<(FilterField, Seq<char>)> {
    match current {
        Some((f, _)) => if !active && f == field {
            None
        } else {
            current
        },
        None => None,
    }
}

/// The sidebar row selected as the library filter, if any: a field and the
/// row's text.
#[derive(Debug)]
pub struct SidebarSelection {
    current: Option<(FilterField, String)>,
}

impl View for SidebarSelection {
    type V = Option<(FilterField, Seq<char>)>;

    closed spec fn view(&self) -> Option<(FilterField, Seq<char>)> {
        match self.current {
            Some((f, v)) => Some((f, v@)),
            None => None,
        }
    }
}

impl SidebarSelection {
    /// No row selected.
    pub fn new() -> (r: Self)
        ensures
            r@ is None,
    {
        SidebarSelection { current: None }
    }

    /// The selected row's field, if a row is selected.
    pub fn field(&self) -> (r: Option<FilterField>)
        ensures
            r == (match self@ {
                Some((f, _)) => Some(f),
                None => None,
            }),
    {
        match &self.current {
            Some((f, _)) => Some(*f),
            None => None,
        }
    }

    /// Activates the row `value` of the category at `category_id`, and
    /// gives the filter to apply: the row's filter when it becomes the
    /// selection, the whole library when re-activating it deselects it, and
    /// nothing for a category that does not exist.
    pub fn activate(&mut self, category_id: usize, value: &str) -> (r: Option<LibraryFilter>)
        ensures
            category_id >= all_filter_fields().len() ==> r is None && final(self)@ == old(self)@,
            category_id < all_filter_fields().len() ==> {
                let field = all_filter_fields()[category_id as int];
                &&& final(self)@ == after_activate(old(self)@, field, value@)
                &&& r matches Some(filter) && filter@ == (if final(self)@ is None {
                    FilterView::All
                } else {
                    filter_for(field, value@)
                })
            },
    {
        if category_id >= 5 {
            return None;
        }
        let all = FilterField::all();
        let field = all[category_id];
        let same = match &self.current {
            Some((f, v)) => *f == field && same_text(v.as_str(), value),
            None => false,
        };
        if same {
            self.current = None;
            Some(LibraryFilter::All)
        } else {
            self.current = Some((field, owned(value)));
            Some(field.to_filter(value))
        }
    }

    /// Clears the selection (the "Clear filter" button), giving the filter
    /// to apply: the whole library.
    pub fn clear(&mut self) -> (r: LibraryFilter)
        ensures
            final(self)@ is None,
            r@ == FilterView::All,
    {
        self.current = None;
        LibraryFilter::All
    }

    /// Records that `field`'s category was shown or hidden: hiding the
    /// category of the selected row forgets the selection, so a filter the
    /// user can no longer see does not stay selected.
    pub fn set_field_active(&mut self, field: FilterField, active: bool)
        ensures
            final(self)@ == after_visibility(old(self)@, field, active),
    {
        if !active {
            let hide = match &self.current {
                Some((f, _)) => *f == field,
                None => false,
            };
            if hide {
                self.current = None;
            }
        }
    }
}

/// Activating the same row twice, from a selection of another row or of
/// none, selects it and then deselects it.
pub proof fn law_reactivating_a_row_deselects_it(
    current: Option<(FilterField, Seq<char>)>,
    field: FilterField,
    value: Seq<char>,
)
    requires
        current != Some((field, value)),
    ensures
        after_activate(current, field, value) == Some((field, value)),
        after_activate(after_activate(current, field, value), field, value) is None,
{
}

} // verus!
