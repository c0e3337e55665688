use musicplayer_rs::folder::LibraryError;
use musicplayer_rs::folder::LibraryFolder;

#[test]
fn db_library_folder_new_accepts_absolute_path() {
    let folder = LibraryFolder::new("/home/user/Music").unwrap();
    assert_eq!(folder.as_path(), "/home/user/Music");
}

#[test]
fn db_library_folder_new_rejects_relative_path() {
    assert!(matches!(
        LibraryFolder::new("Music"),
        Err(LibraryError::RelativePath(_))
    ));
}

#[test]
fn library_library_folder_new_accepts_absolute_path() {
    let folder = LibraryFolder::new("/home/user/Music").unwrap();
    assert_eq!(folder.as_path(), "/home/user/Music");
}

#[test]
fn library_library_folder_new_rejects_relative_path() {
    assert!(matches!(
        LibraryFolder::new("Music"),
        Err(LibraryError::RelativePath(_))
    ));
}

#[test]
fn a_folder_contains_the_paths_beneath_it() {
    let folder = LibraryFolder::new("/home/user/Music").unwrap();
    assert!(folder.contains("/home/user/Music/boc/roygbiv.flac"));
    assert!(!folder.contains("/home/user/Music"));
    assert!(!folder.contains("/home/user/MusicOld/roygbiv.flac"));
    assert!(!folder.contains("/home/user"));
    assert_eq!(folder.track_prefix(), "/home/user/Music/");
}

#[test]
fn relative_path_error_names_the_path() {
    assert_eq!(
        LibraryFolder::new("Music"),
        Err(LibraryError::RelativePath("Music".to_string()))
    );
}

#[test]
fn folders_compare_by_path() {
    let a = LibraryFolder::new("/music").unwrap();
    assert_eq!(a.clone(), a);
    assert_ne!(a, LibraryFolder::new("/music2").unwrap());
}
