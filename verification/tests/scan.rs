use musicplayer_rs::scan::is_audio_extension;
use musicplayer_rs::scan::is_audio_file;
use musicplayer_rs::scan::is_unchanged;

#[test]
fn audio_files_are_recognised_by_extension() {
    for name in ["a.mp3", "b.flac", "c.ogg", "d.m4a", "e.wav", "f.opus", "g.aac"] {
        assert!(is_audio_file(&format!("/music/{name}")), "{name}");
    }
    assert!(!is_audio_file("/music/cover.jpg"));
    assert!(!is_audio_file("/music/notes.txt"));
    assert!(!is_audio_file("/music/FLAC"));
    assert!(!is_audio_file("/music/.flac"));
    assert!(!is_audio_file("/music/LOUD.MP3"));
    assert!(is_audio_extension("opus"));
    assert!(!is_audio_extension("wma"));
}

#[test]
fn unchanged_files_match_their_known_stamp() {
    assert!(is_unchanged(Some((10, 200)), 10, 200));
    assert!(!is_unchanged(Some((10, 200)), 11, 200));
    assert!(!is_unchanged(Some((10, 200)), 10, 201));
    assert!(!is_unchanged(None, 0, 0));
}
