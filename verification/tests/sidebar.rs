use musicplayer_rs::filter::FilterField;
use musicplayer_rs::filter::LibraryFilter;
use musicplayer_rs::sidebar::SidebarSelection;
use musicplayer_rs::track::Artist;
use musicplayer_rs::track::Genre;
use musicplayer_rs::track::Year;
use musicplayer_rs::sidebar::active_fields;
use musicplayer_rs::sidebar::next_shown_after;

#[test]
fn active_fields_follow_the_canonical_order() {
    assert_eq!(
        active_fields(&[true, false, true, false, true]),
        vec![FilterField::Genre, FilterField::Artist, FilterField::Composer]
    );
    assert_eq!(active_fields(&[false; 5]), Vec::<FilterField>::new());
    assert_eq!(active_fields(&[true; 5]).len(), 5);
}

#[test]
fn a_shown_category_goes_before_the_next_shown_one() {
    let shown = [true, false, false, true, false];
    assert_eq!(next_shown_after(&shown, 0), Some(3));
    assert_eq!(next_shown_after(&shown, 1), Some(3));
    assert_eq!(next_shown_after(&shown, 3), None);
    assert_eq!(next_shown_after(&shown, 4), None);
}

#[test]
fn activating_a_row_filters_and_activating_it_again_clears() {
    let mut s = SidebarSelection::new();
    assert_eq!(s.activate(0, "Ambient"), Some(LibraryFilter::ByGenre(Genre::new("Ambient"))));
    assert_eq!(s.field(), Some(FilterField::Genre));
    assert_eq!(s.activate(0, "Ambient"), Some(LibraryFilter::All));
    assert_eq!(s.field(), None);
    assert_eq!(s.activate(3, "2002"), Some(LibraryFilter::ByYear(Year::new(2002))));
    assert_eq!(s.activate(2, "Boards of Canada"), Some(LibraryFilter::ByArtist(Artist::new("Boards of Canada"))));
    assert_eq!(s.field(), Some(FilterField::Artist));
}

#[test]
fn an_unknown_category_changes_nothing() {
    let mut s = SidebarSelection::new();
    s.activate(4, "Aphex Twin");
    assert_eq!(s.activate(5, "x"), None);
    assert_eq!(s.field(), Some(FilterField::Composer));
}

#[test]
fn hiding_the_selected_category_forgets_the_selection() {
    let mut s = SidebarSelection::new();
    s.activate(3, "2002");
    s.set_field_active(FilterField::Genre, false);
    assert_eq!(s.field(), Some(FilterField::Year));
    s.set_field_active(FilterField::Year, true);
    assert_eq!(s.field(), Some(FilterField::Year));
    s.set_field_active(FilterField::Year, false);
    assert_eq!(s.field(), None);
    s.activate(1, "Boards of Canada");
    assert_eq!(s.clear(), LibraryFilter::All);
    assert_eq!(s.field(), None);
}
