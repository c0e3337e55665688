//! The scanner's decisions: which files are audio, and which need reading
//! again.
use vstd::prelude::*;

use crate::text::same_text;

verus! {

broadcast use vstd::string::group_string_axioms;

/// What `Path::extension` gives for `path`: the text after the final `.` of
/// its file name, if the name has one past its first character.
pub uninterp spec fn extension_of(path: Seq<char>) -> Option<Seq<char>>;

/// The extension of `path`'s file name (`Path::extension`), when there is
/// one and it is valid text.
#[verifier::external_body]
fn extension(path: &str) -> (r: Option<String>)
    ensures
        r matches Some(e) ==> extension_of(path@) == Some(e@),
        r is None ==> extension_of(path@) is None,
{
    std::path::Path::new(path).extension().and_then(|e| e.to_str()).map(|e| e.to_string())
}

/// The file extensions the library indexes as audio.
pub open spec fn audio_extensions() -> Set<Seq<char>> {
    set!["mp3"@, "flac"@, "ogg"@, "m4a"@, "wav"@, "opus"@, "aac"@]
}

/// Whether `ext` names an audio format the library indexes.
pub fn is_audio_extension(ext: &str) -> (r: bool)
    ensures
        r == audio_extensions().contains(ext@),
{
    same_text(ext, "mp3") || same_text(ext, "flac") || same_text(ext, "ogg") || same_text(
        ext,
        "m4a",
    ) || same_text(ext, "wav") || same_text(ext, "opus") || same_text(ext, "aac")
}

/// Whether the file at `path` is one the library indexes: its extension is
/// one of the audio extensions (case matters).
pub fn is_audio_file(path: &str) -> (r: bool)
    ensures
        r == (extension_of(path@) matches Some(e) && audio_extensions().contains(e)),
{
    match extension(path) {
        Some(e) => is_audio_extension(e.as_str()),
        None => false,
    }
}

/// Whether a file whose stamp is `(mtime, size)` is unchanged since it was
/// indexed with the stamp `known` (absent when never indexed), so that it
/// need not be read again.
pub fn is_unchanged(known: Option<(u64, u64)>, mtime: u64, size: u64) -> (r: bool)
    ensures
        r == (known == Some((mtime, size))),
{
    match known {
        Some((m, s)) => m == mtime && s == size,
        None => false,
    }
}

} // verus!
