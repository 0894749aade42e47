use slideshow::catalog::ImagePath;
use slideshow::kind::ImageKind;
use slideshow::selector::choose_image;
use std::path::PathBuf;

fn image(name: &str) -> ImagePath {
    ImagePath { path: PathBuf::from(name), kind: ImageKind::Png }
}

#[test]
fn empty_catalog_gives_no_path() {
    assert_eq!(choose_image(Vec::new()), None);
}

#[test]
fn single_path_is_always_chosen() {
    for _ in 0..20 {
        assert_eq!(choose_image(vec![image("only.png")]), Some(image("only.png")));
    }
}

#[test]
fn chosen_path_is_one_of_the_catalog() {
    let catalog = vec![image("a.png"), image("b.png"), image("c.png")];
    for _ in 0..200 {
        let chosen = choose_image(catalog.clone()).unwrap();
        assert!(catalog.contains(&chosen));
    }
}

#[test]
fn every_path_is_chosen_sooner_or_later() {
    let catalog = vec![image("a.png"), image("b.png"), image("c.png")];
    let mut seen = [false; 3];
    for _ in 0..2000 {
        let chosen = choose_image(catalog.clone()).unwrap();
        let at = catalog.iter().position(|p| *p == chosen).unwrap();
        seen[at] = true;
    }
    assert_eq!(seen, [true, true, true]);
}

#[test]
fn chosen_path_keeps_its_container() {
    let catalog = vec![ImagePath { path: PathBuf::from("x.webp"), kind: ImageKind::WebP }];
    assert_eq!(choose_image(catalog).unwrap().kind, ImageKind::WebP);
}
