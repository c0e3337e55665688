use musicplayer_rs::sorting::sort_step;
use musicplayer_rs::sorting::SortOrder;
use musicplayer_rs::sorting::SortedColumn;

fn sorted(column: usize, order: SortOrder) -> Option<SortedColumn> {
    Some(SortedColumn { column, order })
}

#[test]
fn three_header_clicks_sort_up_down_and_then_clear() {
    let first = sort_step(None, Some(2), SortOrder::Ascending);
    assert!(!first.clear);
    assert_eq!(first.last, sorted(2, SortOrder::Ascending));
    let second = sort_step(first.last, Some(2), SortOrder::Descending);
    assert!(!second.clear);
    assert_eq!(second.last, sorted(2, SortOrder::Descending));
    let third = sort_step(second.last, Some(2), SortOrder::Ascending);
    assert!(third.clear);
    assert_eq!(third.last, None);
}

#[test]
fn switching_columns_keeps_the_new_sort() {
    let step = sort_step(sorted(2, SortOrder::Descending), Some(5), SortOrder::Ascending);
    assert!(!step.clear);
    assert_eq!(step.last, sorted(5, SortOrder::Ascending));
    let cleared = sort_step(sorted(5, SortOrder::Ascending), None, SortOrder::Ascending);
    assert!(!cleared.clear);
    assert_eq!(cleared.last, None);
}
