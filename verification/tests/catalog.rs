use slideshow::catalog::{CatalogStore, ImagePath};
use slideshow::kind::ImageKind;
use std::path::PathBuf;

fn image(name: &str, kind: ImageKind) -> ImagePath {
    ImagePath { path: PathBuf::from(name), kind }
}

#[test]
fn new_store_holds_the_initial_catalog() {
    let store = CatalogStore::new(vec![image("a.png", ImageKind::Png)]);
    assert_eq!(store.snapshot(), vec![image("a.png", ImageKind::Png)]);
    assert_eq!(store.len(), 1);
    assert!(!store.is_empty());
}

#[test]
fn empty_store_is_empty() {
    let store = CatalogStore::new(Vec::new());
    assert!(store.is_empty());
    assert_eq!(store.len(), 0);
    assert_eq!(store.snapshot(), Vec::<ImagePath>::new());
}

#[test]
fn replace_installs_the_whole_new_catalog() {
    let mut store = CatalogStore::new(vec![
        image("a.png", ImageKind::Png),
        image("b.jpg", ImageKind::Jpeg),
        image("c.gif", ImageKind::Gif),
    ]);
    store.replace(vec![image("d.bmp", ImageKind::Bmp)]);
    assert_eq!(store.snapshot(), vec![image("d.bmp", ImageKind::Bmp)]);
    assert_eq!(store.len(), 1);
    store.replace(Vec::new());
    assert!(store.is_empty());
}

#[test]
fn snapshot_is_either_the_old_or_the_new_catalog() {
    let old = vec![image("a.png", ImageKind::Png), image("b.jpg", ImageKind::Jpeg)];
    let new = vec![image("c.webp", ImageKind::WebP)];
    let mut store = CatalogStore::new(old.clone());
    let before = store.snapshot();
    store.replace(new.clone());
    let after = store.snapshot();
    assert_eq!(before, old);
    assert_eq!(after, new);
}

#[test]
fn snapshot_does_not_follow_later_replacements() {
    let mut store = CatalogStore::new(vec![image("a.png", ImageKind::Png)]);
    let taken = store.snapshot();
    store.replace(vec![image("b.png", ImageKind::Png), image("c.png", ImageKind::Png)]);
    assert_eq!(taken, vec![image("a.png", ImageKind::Png)]);
    assert_eq!(store.len(), 2);
}

#[test]
fn snapshot_keeps_order_and_repetitions() {
    let catalog = vec![
        image("z.png", ImageKind::Png),
        image("a.png", ImageKind::Png),
        image("z.png", ImageKind::Png),
    ];
    let store = CatalogStore::new(catalog.clone());
    assert_eq!(store.snapshot(), catalog);
}

#[test]
fn copy_of_a_path_equals_it() {
    let path = image("./images/a.jpeg", ImageKind::Jpeg);
    assert_eq!(path.clone(), path);
}
