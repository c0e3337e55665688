//! The track list's three-state column sorting: a header click cycles a
//! column through ascending, descending, and unsorted.
use vstd::prelude::*;

verus! {

/// The order a column is sorted in.
#[derive(Debug, Clone, Copy, PartialEq, Eq, Structural)]
pub enum SortOrder {
    Ascending,
    Descending,
}

/// A column and the order it is sorted in.
#[derive(Debug, Clone, Copy, PartialEq, Eq, Structural)]
pub struct SortedColumn {
    pub column: usize,
    pub order: SortOrder,
}

/// What a change of the list's sort column or order leads to: whether the
/// sort is to be cleared, and the sort to remember for the next change.
#[derive(Debug, Clone, Copy, PartialEq, Eq, Structural)]
pub struct SortStep {
    pub clear: bool,
    pub last: Option<SortedColumn>,
}

/// Whether a change to `column` in `order`, after `last`, is a click that
/// would wrap a descending column back to ascending.
pub open spec fn wraps_to_none(last: Option<SortedColumn>, column: Option<usize>, order: SortOrder) -> bool {
    &&& last matches Some(SortedColumn { column: prev, order: SortOrder::Descending })
    &&& column == Some(prev)
    &&& order == SortOrder::Ascending
}

/// The step a sort change makes: a click that would wrap a descending
/// column back to ascending clears the sort instead (and forgets it);
/// any other change is remembered as it is.
pub fn sort_step(last: Option<SortedColumn>, column: Option<usize>, order: SortOrder) -> (r:
    SortStep)
    ensures
        r.clear == wraps_to_none(last, column, order),
        r.last == (if wraps_to_none(last, column, order) {
            None
        } else {
            match column {
                Some(c) => Some(SortedColumn { column: c, order }),
                None => None,
            }
        }),
{
    let wraps = match (last, column) {
        (Some(SortedColumn { column: prev, order: SortOrder::Descending }), Some(current)) => prev
            == current && order == SortOrder::Ascending,
        _ => false,
    };
    if wraps {
        SortStep { clear: true, last: None }
    } else {
        SortStep {
            clear: false,
            last: match column {
                Some(c) => Some(SortedColumn { column: c, order }),
                None => None,
            },
        }
    }
}

/// The remembered sort after a step.
pub open spec fn step_last(last: Option<SortedColumn>, column: Option<usize>, order: SortOrder) -> Option<SortedColumn> {
    if wraps_to_none(last, column, order) {
        None
    } else {
        match column {
            Some(c) => Some(SortedColumn { column: c, order }),
            None => None,
        }
    }
}

/// Three clicks on one header, starting unsorted, sort it ascending, then
/// descending, then clear the sort: the toolkit's third click (back to
/// ascending) is what is cleared.
pub proof fn law_three_clicks_cycle_back_to_unsorted(column: usize)
    ensures
        !wraps_to_none(None, Some(column), SortOrder::Ascending),
        step_last(None, Some(column), SortOrder::Ascending) == Some(SortedColumn { column, order: SortOrder::Ascending }),
        !wraps_to_none(
            Some(SortedColumn { column, order: SortOrder::Ascending }),
            Some(column),
            SortOrder::Descending,
        ),
        step_last(Some(SortedColumn { column, order: SortOrder::Ascending }), Some(column), SortOrder::Descending)
            == Some(SortedColumn { column, order: SortOrder::Descending }),
        wraps_to_none(Some(SortedColumn { column, order: SortOrder::Descending }), Some(column), SortOrder::Ascending),
        step_last(Some(SortedColumn { column, order: SortOrder::Descending }), Some(column), SortOrder::Ascending)
            is None,
{
}

/// Moving to another column never clears the sort: it is remembered with
/// the order it was given.
pub proof fn law_another_column_is_kept(
    last: Option<SortedColumn>,
    column: usize,
    order: SortOrder,
)
    requires
        last matches Some(SortedColumn { column: prev, .. }) ==> prev != column,
    ensures
        !wraps_to_none(last, Some(column), order),
        step_last(last, Some(column), order) == Some(SortedColumn { column, order }),
{
}

} // verus!
