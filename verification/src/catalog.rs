//! The catalog: the image paths that the last scan of the directory found.
//!
//! A catalog is never patched. Every scan yields a whole new catalog, and
//! the store swaps the old one for it in one step, so a reader holds either
//! the catalog from before a scan or the one from after it.

use vstd::prelude::*;
use crate::kind::ImageKind;

verus! {

/// `std::path::PathBuf`: a path as the operating system gave it. The
/// library carries paths from the listing to the caller and reads nothing
/// in them.
#[verifier::external_type_specification]
#[verifier::external_body]
pub struct ExPathBuf(std::path::PathBuf);

/// `PathBuf::clone` returns a duplicate of the path: a path equal to the
/// one it copies.
pub assume_specification[ <std::path::PathBuf as Clone>::clone ](
    path: &std::path::PathBuf,
) -> (copy: std::path::PathBuf)
    ensures
        copy == *path,
;

/// A path that, by the extension of its file name, names an image of the
/// container `kind`.
#[derive(Debug, PartialEq, Eq)]
pub struct ImagePath {
    pub path: std::path::PathBuf,
    pub kind: ImageKind,
}

impl Clone for ImagePath {
    fn clone(&self) -> (copy: Self)
        ensures
            copy == *self,
    {
        ImagePath { path: self.path.clone(), kind: self.kind }
    }
}

/// The slot that holds the current catalog. It is read and written as a
/// whole: `replace` installs a new catalog, `snapshot` copies the current one.
pub struct CatalogStore {
    catalog: Vec<ImagePath>,
}

impl View for CatalogStore {
    type V = Seq<ImagePath>;

    closed spec fn view(&self) -> Seq<ImagePath> {
        self.catalog@
    }
}

impl CatalogStore {
    /// A store that holds `initial`.
    pub fn new(initial: Vec<ImagePath>) -> (store: CatalogStore)
        ensures
            store@ == initial@,
    {
        CatalogStore { catalog: initial }
    }

    /// Discards the catalog held so far and installs `new_catalog` in its
    /// place. Nothing of the old catalog is left.
    pub fn replace(&mut self, new_catalog: Vec<ImagePath>)
        ensures
            final(self)@ == new_catalog@,
    {
        self.catalog = new_catalog;
    }

    /// A copy of the current catalog, entry for entry and in its order.
    pub fn snapshot(&self) -> (copy: Vec<ImagePath>)
        ensures
            copy@ == self@,
    {
        let copy = self.catalog.clone();
        assert(copy@ =~= self.catalog@);
        copy
    }

    /// The number of paths in the current catalog.
    pub fn len(&self) -> (count: usize)
        ensures
            count == self@.len(),
    {
        self.catalog.len()
    }

    /// Whether the current catalog holds no path.
    pub fn is_empty(&self) -> (empty: bool)
        ensures
            empty == (self@.len() == 0),
    {
        self.catalog.len() == 0
    }
}

} // verus!
