//! The directory scanner: from one listing of the directory to the catalog.
//!
//! Reading the directory is the caller's part. The scanner gets what was
//! read, entry by entry, and keeps the regular files whose name has a
//! supported extension, in the order of the listing.

use vstd::prelude::*;
use crate::catalog::ImagePath;
use crate::kind::{kind_of_file_name, ImageKind};

verus! {

/// One direct entry of the directory, as it was read.
#[derive(Debug, PartialEq, Eq)]
pub struct DirEntry {
    /// The path of the entry: the directory's path and the entry's name.
    pub path: std::path::PathBuf,
    /// The name of the entry inside the directory, as text. Where the name
    /// is no valid Unicode, what is invalid in it stands as U+FFFD.
    pub file_name: String,
    /// Whether the path leads to a regular file, links followed.
    pub is_file: bool,
}

/// What a `DirEntry` stands for in contracts.
pub struct DirEntryView {
    pub path: std::path::PathBuf,
    pub file_name: Seq<char>,
    pub is_file: bool,
}

impl View for DirEntry {
    type V = DirEntryView;

    open spec fn view(&self) -> DirEntryView {
        DirEntryView { path: self.path, file_name: self.file_name@, is_file: self.is_file }
    }
}

impl DeepView for DirEntry {
    type V = DirEntryView;

    open spec fn deep_view(&self) -> DirEntryView {
        self@
    }
}

/// The outcome of reading the directory once.
#[derive(Debug, PartialEq, Eq)]
pub enum DirListing {
    /// The directory could not be read: it is missing, or access was denied.
    Unreadable,
    /// The entries that were read, in the order in which they came.
    Entries(Vec<DirEntry>),
}

impl View for DirListing {
    type V = Seq<DirEntryView>;

    /// The entries of the listing; none where the directory was unreadable.
    open spec fn view(&self) -> Seq<DirEntryView> {
        match self {
            DirListing::Unreadable => Seq::empty(),
            DirListing::Entries(entries) => entries.deep_view(),
        }
    }
}

/// The image path that an entry gives: one for a regular file whose name
/// has a supported extension, none for every other entry.
pub open spec fn image_of(entry: DirEntryView) -> Option<ImagePath> {
    if entry.is_file && kind_of_file_name(entry.file_name) is Some {
        Some(ImagePath { path: entry.path, kind: kind_of_file_name(entry.file_name).unwrap() })
    } else {
        None
    }
}

/// The catalog of a listing: the image paths of its entries, in their order.
pub open spec fn images_among(entries: Seq<DirEntryView>) -> Seq<ImagePath> {
    entries.filter_map(|entry: DirEntryView| image_of(entry))
}

/// Every path of the catalog comes from an entry of the listing that is a
/// regular file with a supported extension. No directory gets in.
pub proof fn lemma_scan_sound(entries: Seq<DirEntryView>, image: ImagePath)
    requires
        images_among(entries).contains(image),
    ensures
        exists|entry: DirEntryView|
            {
                &&& #[trigger] entries.contains(entry)
                &&& entry.is_file
                &&& entry.path == image.path
                &&& kind_of_file_name(entry.file_name) == Some(image.kind)
            },
{
    let f = |entry: DirEntryView| image_of(entry);
    entries.lemma_filter_map_contains(f, image);
    let entry = choose|entry: DirEntryView| #[trigger]
        entries.contains(entry) && f(entry) == Some(image);
    assert(entries.contains(entry) && image_of(entry) == Some(image));
}

/// Every entry of the listing that is a regular file with a supported
/// extension has its path in the catalog.
pub proof fn lemma_scan_complete(entries: Seq<DirEntryView>, entry: DirEntryView)
    requires
        entries.contains(entry),
        entry.is_file,
        kind_of_file_name(entry.file_name) is Some,
    ensures
        images_among(entries).contains(image_of(entry).unwrap()),
    decreases entries.len(),
{
    let f = |entry: DirEntryView| image_of(entry);
    let image = image_of(entry).unwrap();
    let front = entries.drop_last();
    let found = images_among(entries);
    if entries.last() == entry {
        assert(found == front.filter_map(f) + seq![image]);
        assert(found[found.len() - 1] == image);
    } else {
        let i = choose|i: int| 0 <= i < entries.len() && entries[i] == entry;
        assert(front[i] == entry);
        lemma_scan_complete(front, entry);
        let k = choose|k: int| 0 <= k < images_among(front).len() && images_among(front)[k] == image;
        assert(found[k] == image);
    }
}

/// The catalog follows the listing's order: the catalog of two listings
/// put end to end is their two catalogs put end to end.
pub proof fn lemma_scan_concat(first: Seq<DirEntryView>, second: Seq<DirEntryView>)
    ensures
        images_among(first + second) == images_among(first) + images_among(second),
    decreases second.len(),
{
    let f = |entry: DirEntryView| image_of(entry);
    if second.len() == 0 {
        assert(first + second =~= first);
        assert(images_among(first) + images_among(second) =~= images_among(first));
    } else {
        assert((first + second).drop_last() =~= first + second.drop_last());
        assert((first + second).last() == second.last());
        lemma_scan_concat(first, second.drop_last());
        assert(images_among(first + second) =~= images_among(first) + images_among(second));
    }
}

/// Two listings of the same directory content, in whatever order and with
/// whatever repetitions, give catalogs that hold the same paths.
pub proof fn lemma_scan_same_content(first: Seq<DirEntryView>, second: Seq<DirEntryView>)
    requires
        first.to_set() == second.to_set(),
    ensures
        images_among(first).to_set() == images_among(second).to_set(),
{
    assert forall|image: ImagePath|
        images_among(first).contains(image) == images_among(second).contains(image) by {
        if images_among(first).contains(image) {
            lemma_scan_one_way(first, second, image);
        }
        if images_among(second).contains(image) {
            lemma_scan_one_way(second, first, image);
        }
    }
    assert(images_among(first).to_set() =~= images_among(second).to_set());
}

proof fn lemma_scan_one_way(
    first: Seq<DirEntryView>,
    second: Seq<DirEntryView>,
    image: ImagePath,
)
    requires
        first.to_set() == second.to_set(),
        images_among(first).contains(image),
    ensures
        images_among(second).contains(image),
{
    let f = |entry: DirEntryView| image_of(entry);
    first.lemma_filter_map_contains(f, image);
    let entry = choose|entry: DirEntryView| #[trigger]
        first.contains(entry) && f(entry) == Some(image);
    assert(first.to_set().contains(entry));
    assert(second.to_set().contains(entry));
    lemma_scan_complete(second, entry);
}

/// The image path of `entry`, if it is a regular file with a supported
/// extension.
pub fn image_path_of(entry: &DirEntry) -> (image: Option<ImagePath>)
    ensures
        image == image_of(entry@),
{
    if !entry.is_file {
        return None;
    }
    match ImageKind::from_file_name(entry.file_name.as_str()) {
        Some(kind) => Some(ImagePath { path: entry.path.clone(), kind }),
        None => None,
    }
}

/// Scans one listing of the directory: the catalog holds exactly the image
/// paths of the listing's entries, in the listing's order. An unreadable
/// directory gives the empty catalog.
pub fn scan_images(listing: &DirListing) -> (catalog: Vec<ImagePath>)
    ensures
        catalog@ == images_among(listing@),
        listing is Unreadable ==> catalog@.len() == 0,
{
    let mut catalog: Vec<ImagePath> = Vec::new();
    match listing {
        DirListing::Unreadable => {
            assert(catalog@ =~= images_among(listing@));
        },
        DirListing::Entries(entries) => {
            let ghost f = |entry: DirEntryView| image_of(entry);
            assert(catalog@ =~= images_among(entries.deep_view().take(0)));
            let mut i: usize = 0;
            while i < entries.len()
                invariant
                    i <= entries.len(),
                    f == |entry: DirEntryView| image_of(entry),
                    catalog@ == entries.deep_view().take(i as int).filter_map(f),
                decreases entries.len() - i,
            {
                let ghost before = catalog@;
                proof {
                    entries.deep_view().lemma_filter_map_take_succ(f, i as int);
                }
                match image_path_of(&entries[i]) {
                    Some(image) => {
                        catalog.push(image);
                        assert(catalog@ =~= before + seq![image]);
                    },
                    None => {},
                }
                i += 1;
            }
            assert(entries.deep_view().take(i as int) =~= entries.deep_view());
        },
    }
    catalog
}

} // verus!
