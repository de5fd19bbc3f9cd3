//! The current user's home directory, as read from the environment.
//!
//! A `HomeDir` can only be made by reading the environment: its field is
//! private to this module, so a path that the rest of the library builds
//! from a `HomeDir` comes from the home directory actually read.

use vstd::prelude::*;

verus! {

/// A home directory that was read from the environment.
#[derive(Debug)]
pub struct HomeDir {
    path: String,
}

impl HomeDir {
    /// The path of the directory.
    pub closed spec fn path(&self) -> Seq<char> {
        self.path@
    }

    /// The path of the directory, as text.
    pub fn as_str(&self) -> (s: &str)
        ensures
            s@ == self.path(),
    {
        self.path.as_str()
    }
}

/// `dirs::home_dir`, rendered as text: the home directory of the current
/// user (`$HOME` when set and not empty, else the user's entry in the
/// password database), or `None` when neither gives one. The answer
/// depends on the environment, so only this is claimed of it: a directory
/// that is found is not the empty path.
#[verifier::external_body]
pub(crate) fn home_directory() -> (home: Option<HomeDir>)
    ensures
        home matches Some(h) ==> h.path().len() > 0,
{
    dirs::home_dir().map(|p| HomeDir { path: p.display().to_string() })
}

} // verus!
