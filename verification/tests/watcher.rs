use slideshow::catalog::{CatalogStore, ImagePath};
use slideshow::kind::ImageKind;
use slideshow::scanner::{DirEntry, DirListing};
use slideshow::watcher::{rescan, DirectoryWatcher, WatchAction, WatchSignal, WatcherMode};
use std::collections::BTreeSet;
use std::path::PathBuf;

fn file(name: &str) -> DirEntry {
    DirEntry { path: PathBuf::from("./images").join(name), file_name: name.to_string(), is_file: true }
}

#[test]
fn registered_watcher_is_live() {
    assert_eq!(DirectoryWatcher::start(true).mode, WatcherMode::Live);
}

#[test]
fn failed_registration_leaves_a_static_watcher() {
    assert_eq!(DirectoryWatcher::start(false).mode, WatcherMode::Static);
}

#[test]
fn live_watcher_rescans_on_every_change() {
    let watcher = DirectoryWatcher::start(true);
    assert_eq!(watcher.on_signal(WatchSignal::Changed), WatchAction::Rescan);
    assert_eq!(watcher.on_signal(WatchSignal::Changed), WatchAction::Rescan);
}

#[test]
fn live_watcher_ignores_errors_of_the_watch() {
    let watcher = DirectoryWatcher::start(true);
    assert_eq!(watcher.on_signal(WatchSignal::Failed), WatchAction::Nothing);
}

#[test]
fn static_watcher_never_rescans() {
    let watcher = DirectoryWatcher::start(false);
    assert_eq!(watcher.on_signal(WatchSignal::Changed), WatchAction::Nothing);
    assert_eq!(watcher.on_signal(WatchSignal::Failed), WatchAction::Nothing);
}

#[test]
fn rescan_replaces_the_catalog_with_the_new_scan() {
    let mut store = CatalogStore::new(vec![ImagePath {
        path: PathBuf::from("./images/old.png"),
        kind: ImageKind::Png,
    }]);
    rescan(&mut store, &DirListing::Entries(vec![file("new.gif"), file("notes.txt")]));
    assert_eq!(
        store.snapshot(),
        vec![ImagePath { path: PathBuf::from("./images/new.gif"), kind: ImageKind::Gif }]
    );
}

#[test]
fn rescan_of_unreadable_directory_empties_the_catalog() {
    let mut store = CatalogStore::new(vec![ImagePath {
        path: PathBuf::from("./images/old.png"),
        kind: ImageKind::Png,
    }]);
    rescan(&mut store, &DirListing::Unreadable);
    assert!(store.is_empty());
}

#[test]
fn repeated_rescans_of_unchanged_content_hold_the_same_paths() {
    let mut store = CatalogStore::new(Vec::new());
    rescan(&mut store, &DirListing::Entries(vec![file("a.png"), file("b.jpg"), file("c.txt")]));
    let first: BTreeSet<PathBuf> = store.snapshot().into_iter().map(|p| p.path).collect();
    rescan(&mut store, &DirListing::Entries(vec![file("c.txt"), file("b.jpg"), file("a.png")]));
    let second: BTreeSet<PathBuf> = store.snapshot().into_iter().map(|p| p.path).collect();
    rescan(&mut store, &DirListing::Entries(vec![file("b.jpg"), file("a.png"), file("c.txt")]));
    let third: BTreeSet<PathBuf> = store.snapshot().into_iter().map(|p| p.path).collect();
    assert_eq!(first, second);
    assert_eq!(second, third);
    assert_eq!(store.len(), 2);
}
