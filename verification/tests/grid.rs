use musicplayer_rs::grid::columns_for;
use musicplayer_rs::grid::drawer_row;
use musicplayer_rs::grid::toggled_drawer;
use musicplayer_rs::grid::CoverGrid;
use musicplayer_rs::grid::GridSelection;
use musicplayer_rs::grid::DEFAULT_COVER_SIZE;

fn selected(s: &GridSelection, upto: usize) -> Vec<usize> {
    (0..upto).filter(|&i| s.is_selected(i)).collect()
}

#[test]
fn columns_fit_the_width_left_after_the_margins() {
    // (1000 - 12) / (200 + 34) = 4
    assert_eq!(columns_for(1000, DEFAULT_COVER_SIZE), 4);
    // (1182 - 12) / 234 = 5 exactly
    assert_eq!(columns_for(1182, 200), 5);
    assert_eq!(columns_for(1181, 200), 4);
}

#[test]
fn a_narrow_or_unsized_viewport_still_shows_one_column() {
    assert_eq!(columns_for(100, 200), 1);
    assert_eq!(columns_for(0, 200), 1);
    assert_eq!(columns_for(-500, 200), 1);
}

#[test]
fn a_drawer_opens_beneath_its_covers_row() {
    assert_eq!(drawer_row(0, 4), 0);
    assert_eq!(drawer_row(3, 4), 0);
    assert_eq!(drawer_row(4, 4), 1);
    assert_eq!(drawer_row(9, 4), 2);
}

#[test]
fn activating_a_cover_toggles_its_drawer() {
    assert_eq!(toggled_drawer(None, 2, 5), Some(2));
    assert_eq!(toggled_drawer(Some(2), 2, 5), None);
    assert_eq!(toggled_drawer(Some(1), 3, 5), Some(3));
    assert_eq!(toggled_drawer(Some(1), 7, 5), None);
}

#[test]
fn ctrl_click_toggles_a_cover_and_sets_the_anchor() {
    let mut s = GridSelection::new();
    assert_eq!(s.anchor(), None);
    s.ctrl_toggle(3);
    s.ctrl_toggle(1);
    assert_eq!(selected(&s, 10), vec![1, 3]);
    assert_eq!(s.anchor(), Some(1));
    s.ctrl_toggle(3);
    assert_eq!(selected(&s, 10), vec![1]);
    assert_eq!(s.anchor(), Some(3));
}

#[test]
fn shift_click_selects_the_range_from_the_anchor() {
    let mut s = GridSelection::new();
    s.clear_at(2);
    s.shift_select(5);
    assert_eq!(selected(&s, 10), vec![2, 3, 4, 5]);
    s.shift_select(0);
    assert_eq!(selected(&s, 10), vec![0, 1, 2]);
    assert_eq!(s.anchor(), Some(2));
}

#[test]
fn shift_click_without_an_anchor_selects_just_that_cover() {
    let mut s = GridSelection::new();
    s.shift_select(4);
    assert_eq!(selected(&s, 10), vec![4]);
    assert_eq!(s.anchor(), Some(4));
}

#[test]
fn clearing_empties_the_selection() {
    let mut s = GridSelection::new();
    s.ctrl_toggle(1);
    s.ctrl_toggle(2);
    s.clear();
    assert!(selected(&s, 10).is_empty());
    assert_eq!(s.anchor(), Some(2));
    s.ctrl_toggle(5);
    s.clear_at(7);
    assert!(selected(&s, 10).is_empty());
    assert_eq!(s.anchor(), Some(7));
}

fn grid_of(count: usize) -> CoverGrid {
    let mut g = CoverGrid::new();
    g.set_albums(count, 4);
    g
}

fn grid_selected(g: &CoverGrid, upto: usize) -> Vec<usize> {
    (0..upto).filter(|&i| g.is_selected(i)).collect()
}

#[test]
fn a_plain_press_toggles_the_covers_drawer() {
    let mut g = grid_of(10);
    g.press(5, 1, false, false);
    assert_eq!(g.drawer(), Some(5));
    assert_eq!(g.drawer_row(), Some(1));
    g.press(5, 1, false, false);
    assert_eq!(g.drawer(), None);
    assert_eq!(g.drawer_row(), None);
}

#[test]
fn only_the_first_press_of_a_double_click_acts() {
    let mut g = grid_of(10);
    g.press(2, 1, false, false);
    g.press(2, 2, false, false);
    assert_eq!(g.drawer(), Some(2));
}

#[test]
fn selecting_closes_the_drawer_and_a_plain_press_clears_the_selection() {
    let mut g = grid_of(10);
    g.press(3, 1, false, false);
    assert_eq!(g.drawer(), Some(3));
    g.press(6, 1, true, false);
    assert_eq!(g.drawer(), None);
    assert_eq!(grid_selected(&g, 10), vec![3, 4, 5, 6]);
    g.press(8, 1, false, true);
    assert_eq!(grid_selected(&g, 10), vec![3, 4, 5, 6, 8]);
    g.press(1, 1, false, false);
    assert!(grid_selected(&g, 10).is_empty());
    assert_eq!(g.drawer(), Some(1));
}

#[test]
fn a_right_click_on_one_of_several_selected_covers_batches_them_in_order() {
    let mut g = grid_of(10);
    g.press(7, 1, false, true);
    g.press(2, 1, false, true);
    assert_eq!(g.batch_for(7), Some(vec![2, 7]));
    assert_eq!(g.batch_for(4), None);
    g.press(2, 1, false, true);
    assert_eq!(g.batch_for(7), None);
}

#[test]
fn a_column_change_closes_the_drawer_and_new_albums_reset_everything() {
    let mut g = grid_of(10);
    g.press(5, 1, false, false);
    g.reflow(4);
    assert_eq!(g.drawer(), Some(5));
    g.reflow(3);
    assert_eq!(g.drawer(), None);
    g.press(1, 1, false, true);
    g.click_elsewhere();
    assert!(grid_selected(&g, 10).is_empty());
    g.press(4, 1, false, true);
    g.set_albums(3, 2);
    assert!(grid_selected(&g, 10).is_empty());
    assert_eq!(g.drawer(), None);
}
