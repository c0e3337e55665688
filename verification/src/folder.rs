//! The music folders the library watches.
use vstd::prelude::*;

use crate::text::chars_of;
use crate::text::owned;
use crate::text::push_char;
use crate::track::is_absolute;

verus! {

broadcast use vstd::string::group_string_axioms;

/// Why a folder was refused.
#[derive(Debug, PartialEq, Eq)]
pub enum LibraryError {
    /// The path is not absolute; carries the path as given.
    RelativePath(String),
}

/// Absolute path to a watched music folder.
#[derive(Debug, Eq, Hash)]
pub struct LibraryFolder(String);

impl View for LibraryFolder {
    type V = Seq<char>;

    closed spec fn view(&self) -> Seq<char> {
        self.0@
    }
}

impl PartialEq for LibraryFolder {
    fn eq(&self, other: &Self) -> (r: bool) {
        self.0 == other.0
    }
}

impl vstd::std_specs::cmp::PartialEqSpecImpl for LibraryFolder {
    open spec fn obeys_eq_spec() -> bool {
        true
    }

    open spec fn eq_spec(&self, other: &Self) -> bool {
        self@ == other@
    }
}

impl Clone for LibraryFolder {
    fn clone(&self) -> (r: Self)
        ensures
            r == *self,
    {
        proof {
            use_type_invariant(self);
        }
        LibraryFolder(self.0.clone())
    }
}

/// The prefix every path beneath the folder `folder` starts with: the
/// folder and a separator, so that a sibling such as `/MusicOld` is not
/// taken for part of `/Music`.
pub open spec fn folder_prefix(folder: Seq<char>) -> Seq<char> {
    folder.push('/')
}

/// Whether `path` lies beneath the folder `folder`.
pub open spec fn is_beneath(folder: Seq<char>, path: Seq<char>) -> bool {
    folder_prefix(folder).is_prefix_of(path)
}

impl LibraryFolder {
    #[verifier::type_invariant]
    spec fn inv(self) -> bool {
        is_absolute(self.0@)
    }

    /// The folder `path`, or `Err(RelativePath)` if `path` is not absolute.
    pub fn new(path: &str) -> (r: Result<Self, LibraryError>)
        ensures
            is_absolute(path@) ==> (r matches Ok(f) && f@ == path@),
            !is_absolute(path@) ==> (r matches Err(LibraryError::RelativePath(q)) && q@
                == path@),
    {
        let v = chars_of(path);
        if v.len() > 0 && v[0] == '/' {
            Ok(LibraryFolder(owned(path)))
        } else {
            Err(LibraryError::RelativePath(owned(path)))
        }
    }

    pub fn as_path(&self) -> (r: &str)
        ensures
            r@ == self@,
            is_absolute(r@),
    {
        proof {
            use_type_invariant(self);
        }
        self.0.as_str()
    }

    /// The prefix shared by every path beneath this folder.
    pub fn track_prefix(&self) -> (r: String)
        ensures
            r@ == folder_prefix(self@),
    {
        let mut r = owned(self.0.as_str());
        push_char(&mut r, '/');
        r
    }

    /// Whether `path` lies beneath this folder.
    pub fn contains(&self, path: &str) -> (r: bool)
        ensures
            r == is_beneath(self@, path@),
    {
        let prefix = chars_of(self.0.as_str());
        let p = chars_of(path);
        let n = prefix.len();
        if p.len() <= n || p[n] != '/' {
            proof {
                if p@.len() > n {
                    assert(folder_prefix(self@)[n as int] == '/');
                }
            }
            return false;
        }
        let mut i: usize = 0;
        while i < n
            invariant
                n == prefix@.len(),
                prefix@ == self@,
                p@ == path@,
                n < p@.len(),
                p@[n as int] == '/',
                i <= n,
                forall|j: int| 0 <= j < i ==> prefix@[j] == p@[j],
            decreases n - i,
        {
            if prefix[i] != p[i] {
                assert(folder_prefix(self@)[i as int] == prefix@[i as int]);
                return false;
            }
            i = i + 1;
        }
        assert(folder_prefix(self@) =~= p@.subrange(0, n + 1));
        true
    }
}

/// A folder's own paths are beneath it, and no path of a sibling whose
/// name merely extends the folder's name is.
pub proof fn law_sibling_with_shared_prefix_is_not_beneath(
    folder: Seq<char>,
    suffix: Seq<char>,
    rest: Seq<char>,
)
    requires
        suffix.len() > 0,
        suffix[0] != '/',
    ensures
        !is_beneath(folder, folder + suffix + rest),
        is_beneath(folder, folder.push('/') + rest),
{
    let path = folder + suffix + rest;
    if is_beneath(folder, path) {
        assert(path[folder.len() as int] == suffix[0]);
        assert(folder_prefix(folder)[folder.len() as int] == '/');
    }
    assert((folder.push('/') + rest).subrange(0, folder.len() as int + 1) =~= folder_prefix(folder));
}

} // verus!
