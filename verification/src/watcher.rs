//! The directory watcher's decisions.
//!
//! Watching is the caller's part: it registers the watch on the directory
//! and receives what the watch delivers, on a thread of its own. This module
//! decides what each delivery leads to. A watch that could not be registered
//! leaves the slideshow running on the catalog of the first scan.

use vstd::prelude::*;
use crate::catalog::CatalogStore;
use crate::scanner::{images_among, scan_images, DirListing};

verus! {

/// Whether changes of the directory reach the catalog.
#[derive(Clone, Copy, Debug, PartialEq, Eq, Structural)]
pub enum WatcherMode {
    /// The watch is registered: every change leads to a new scan.
    Live,
    /// The watch could not be registered: the catalog stays as it is.
    Static,
}

/// What the watch delivers.
#[derive(Clone, Copy, Debug, PartialEq, Eq, Structural)]
pub enum WatchSignal {
    /// Something in the directory was created, removed, renamed or modified.
    Changed,
    /// The watch reported an error in place of an event.
    Failed,
}

/// What a delivery leads to.
#[derive(Clone, Copy, Debug, PartialEq, Eq, Structural)]
pub enum WatchAction {
    /// Read the directory again and replace the catalog.
    Rescan,
    /// Do nothing.
    Nothing,
}

/// The watcher of one directory.
#[derive(Clone, Copy, Debug, PartialEq, Eq, Structural)]
pub struct DirectoryWatcher {
    pub mode: WatcherMode,
}

impl DirectoryWatcher {
    /// The watcher after the attempt to register the watch: live where the
    /// attempt succeeded, static where it failed.
    pub fn start(registered: bool) -> (watcher: DirectoryWatcher)
        ensures
            watcher.mode == if registered {
                WatcherMode::Live
            } else {
                WatcherMode::Static
            },
    {
        if registered {
            DirectoryWatcher { mode: WatcherMode::Live }
        } else {
            DirectoryWatcher { mode: WatcherMode::Static }
        }
    }

    /// What the delivery `signal` leads to: a new scan for every change
    /// that a live watcher hears of, and nothing else.
    pub fn on_signal(&self, signal: WatchSignal) -> (action: WatchAction)
        ensures
            action is Rescan <==> (self.mode is Live && signal is Changed),
    {
        match (self.mode, signal) {
            (WatcherMode::Live, WatchSignal::Changed) => WatchAction::Rescan,
            _ => WatchAction::Nothing,
        }
    }
}

/// Carries out a new scan: the store then holds the catalog of `listing`,
/// whole, and nothing of what it held before.
pub fn rescan(store: &mut CatalogStore, listing: &DirListing)
    ensures
        final(store)@ == images_among(listing@),
{
    store.replace(scan_images(listing));
}

} // verus!
