use musicplayer_rs::layout::divider_position;
use musicplayer_rs::layout::dragged_width;
use musicplayer_rs::layout::initial_dividers;
use musicplayer_rs::layout::initial_window_size;
use musicplayer_rs::layout::SidebarEdge;

#[test]
fn the_window_opens_at_its_saved_size_or_1200_by_700() {
    assert_eq!(initial_window_size(None), (1200, 700));
    assert_eq!(initial_window_size(Some((800, 600))), (800, 600));
}

#[test]
fn a_start_sidebars_divider_is_its_width_and_an_end_sidebars_is_what_precedes_it() {
    assert_eq!(divider_position(SidebarEdge::Start, true, 240, 1000), 240);
    assert_eq!(divider_position(SidebarEdge::Start, false, 240, 1000), 0);
    assert_eq!(divider_position(SidebarEdge::End, true, 300, 1000), 700);
    assert_eq!(divider_position(SidebarEdge::End, true, 300, 200), 0);
    assert_eq!(divider_position(SidebarEdge::End, false, 300, 1000), 1000);
}

#[test]
fn the_first_dividers_estimate_the_content_width() {
    assert_eq!(initial_dividers(1200, true, 250, true, 300), (250, 650));
    assert_eq!(initial_dividers(1200, false, 250, true, 300), (0, 900));
    assert_eq!(initial_dividers(1200, true, 250, false, 300), (250, 950));
}

#[test]
fn only_a_positive_dragged_width_is_kept() {
    assert_eq!(dragged_width(SidebarEdge::Start, 180, 1000), Some(180));
    assert_eq!(dragged_width(SidebarEdge::Start, 0, 1000), None);
    assert_eq!(dragged_width(SidebarEdge::End, 700, 1000), Some(300));
    assert_eq!(dragged_width(SidebarEdge::End, 1000, 1000), None);
}
