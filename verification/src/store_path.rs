//! Canonical store paths.

use vstd::prelude::*;
use vstd::std_specs::cmp::PartialEqSpecImpl;

verus! {

/// The canonical identifier of one artifact in the store.
///
/// Two store paths are the same path exactly when their canonical names are
/// the same sequence of characters.
#[derive(Debug, Eq, Hash)]
pub struct StorePath {
    name: String,
}

impl View for StorePath {
    type V = Seq<char>;

    closed spec fn view(&self) -> Seq<char> {
        self.name@
    }
}

impl StorePath {
    /// Wraps a canonical name.
    pub fn new(name: String) -> (path: StorePath)
        ensures
            path@ == name@,
    {
        StorePath { name }
    }

    /// The canonical name.
    pub fn as_str(&self) -> (name: &str)
        ensures
            name@ == self@,
    {
        self.name.as_str()
    }

    /// Gives the canonical name back.
    pub fn into_string(self) -> (name: String)
        ensures
            name@ == self@,
    {
        self.name
    }
}

impl Clone for StorePath {
    fn clone(&self) -> (copy: StorePath)
        ensures
            copy == *self,
    {
        StorePath { name: self.name.clone() }
    }
}

impl PartialEq for StorePath {
    fn eq(&self, other: &StorePath) -> (same: bool) {
        self.name == other.name
    }
}

impl PartialEqSpecImpl for StorePath {
    open spec fn obeys_eq_spec() -> bool {
        true
    }

    open spec fn eq_spec(&self, other: &StorePath) -> bool {
        self@ == other@
    }
}

} // verus!
