//! What the main window loads right after opening.
use vstd::prelude::*;

use crate::album::AlbumSummary;
use crate::filter::FilterField;
use crate::folder::LibraryFolder;
use crate::track::Track;

verus! {

/// Everything the main window needs to populate itself right after opening:
/// the folders, the tracks and albums under the active filter, and each
/// sidebar field's distinct values.
#[derive(Debug)]
pub struct LibraryBootstrap {
    pub folders: Vec<LibraryFolder>,
    pub tracks: Vec<Track>,
    pub albums: Vec<AlbumSummary>,
    pub sidebar_values: Vec<(FilterField, Vec<String>)>,
}

} // verus!
