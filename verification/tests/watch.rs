use musicplayer_rs::watch::is_structural;
use musicplayer_rs::watch::FsChange;

#[test]
fn is_structural_ignores_content_modifications() {
    assert!(!is_structural(FsChange::Modify));
    assert!(!is_structural(FsChange::Other));
}

#[test]
fn is_structural_accepts_creates_and_removes() {
    assert!(is_structural(FsChange::Create));
    assert!(is_structural(FsChange::Remove));
    assert!(is_structural(FsChange::Rename));
}
