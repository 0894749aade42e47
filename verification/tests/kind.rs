use slideshow::kind::{extension_of, ImageKind};
use std::path::Path;

fn ext(name: &str) -> Option<String> {
    extension_of(name).map(|chars| chars.into_iter().collect())
}

#[test]
fn extension_is_what_follows_the_last_dot() {
    assert_eq!(ext("photo.png"), Some("png".to_string()));
    assert_eq!(ext("archive.tar.gz"), Some("gz".to_string()));
    assert_eq!(ext("holiday.2024.jpeg"), Some("jpeg".to_string()));
}

#[test]
fn name_without_dot_has_no_extension() {
    assert_eq!(ext("README"), None);
    assert_eq!(ext(""), None);
}

#[test]
fn hidden_file_has_no_extension() {
    assert_eq!(ext(".png"), None);
    assert_eq!(ext(".gitignore"), None);
    assert_eq!(ext("."), None);
}

#[test]
fn hidden_file_with_second_dot_has_extension() {
    assert_eq!(ext(".cache.png"), Some("png".to_string()));
    assert_eq!(ext("..png"), Some("png".to_string()));
}

#[test]
fn parent_name_has_no_extension() {
    assert_eq!(ext(".."), None);
}

#[test]
fn trailing_dot_gives_empty_extension() {
    assert_eq!(ext("photo."), Some(String::new()));
    assert_eq!(ext("..."), Some(String::new()));
}

#[test]
fn extension_counts_characters_not_bytes() {
    assert_eq!(ext("bücher.größe"), Some("größe".to_string()));
    assert_eq!(ext("日本語.png"), Some("png".to_string()));
}

#[test]
fn extension_agrees_with_std_on_file_names() {
    let names = [
        "", ".", "..", "...", "a", "a.", ".a", "a.b", "a.b.c", ".a.b", "..a", "a..b", "a.png",
        "A.PNG", ".png", "x.jpeg", "x.jpg.bak", "no dots here", "tab\t.gif", "é.webp", "x.y.",
        "bmp", ".bmp.", "w.e.b.p",
    ];
    for name in names {
        let expected = Path::new(name)
            .extension()
            .and_then(|e| e.to_str())
            .map(|e| e.to_string());
        assert_eq!(ext(name), expected, "name {:?}", name);
    }
}

#[test]
fn six_extensions_are_supported() {
    assert_eq!(ImageKind::from_extension("jpg"), Some(ImageKind::Jpeg));
    assert_eq!(ImageKind::from_extension("jpeg"), Some(ImageKind::Jpeg));
    assert_eq!(ImageKind::from_extension("png"), Some(ImageKind::Png));
    assert_eq!(ImageKind::from_extension("gif"), Some(ImageKind::Gif));
    assert_eq!(ImageKind::from_extension("bmp"), Some(ImageKind::Bmp));
    assert_eq!(ImageKind::from_extension("webp"), Some(ImageKind::WebP));
}

#[test]
fn other_extensions_are_not_supported() {
    for word in [
        "", "j", "jp", "jpe", "jpgg", "jpegs", "pn", "pngx", "tiff", "tif", "ico", "svg", "avif",
        "jfif", "apng", "txt", "gi", "bm", "web", "webpp", " png", "png ", "p.ng",
    ] {
        assert_eq!(ImageKind::from_extension(word), None, "word {:?}", word);
    }
}

#[test]
fn upper_case_extensions_are_not_supported() {
    for word in ["JPG", "Jpeg", "PNG", "Gif", "BMP", "WebP", "pnG"] {
        assert_eq!(ImageKind::from_extension(word), None, "word {:?}", word);
    }
}

#[test]
fn file_name_announces_its_container() {
    assert_eq!(ImageKind::from_file_name("a.jpg"), Some(ImageKind::Jpeg));
    assert_eq!(ImageKind::from_file_name("a.b.jpeg"), Some(ImageKind::Jpeg));
    assert_eq!(ImageKind::from_file_name("shot 1.png"), Some(ImageKind::Png));
    assert_eq!(ImageKind::from_file_name("anim.gif"), Some(ImageKind::Gif));
    assert_eq!(ImageKind::from_file_name("scan.bmp"), Some(ImageKind::Bmp));
    assert_eq!(ImageKind::from_file_name("pic.webp"), Some(ImageKind::WebP));
}

#[test]
fn file_name_without_supported_extension_announces_nothing() {
    for name in [
        "", "png", ".png", "a.PNG", "a.png.txt", "a.png.", "notes.txt", "a.jpgx", "..", ".",
        "jpeg", "a.tiff",
    ] {
        assert_eq!(ImageKind::from_file_name(name), None, "name {:?}", name);
    }
}

#[test]
fn supported_extensions_name_the_decoder_s_formats() {
    let pairs = [
        ("jpg", ImageKind::Jpeg, image::ImageFormat::Jpeg),
        ("jpeg", ImageKind::Jpeg, image::ImageFormat::Jpeg),
        ("png", ImageKind::Png, image::ImageFormat::Png),
        ("gif", ImageKind::Gif, image::ImageFormat::Gif),
        ("bmp", ImageKind::Bmp, image::ImageFormat::Bmp),
        ("webp", ImageKind::WebP, image::ImageFormat::WebP),
    ];
    for (word, kind, format) in pairs {
        assert_eq!(ImageKind::from_extension(word), Some(kind));
        assert_eq!(image::ImageFormat::from_extension(word), Some(format));
    }
}
