use beautiful_app::files::format::{open_dialog_filters, ExportFormat, FormatFlags};
use beautiful_app::paths::{
    ensure_extension, extension, file_name, file_stem, format_of, join, parent,
    path_is_native_project,
};
use beautiful_app::paths::parts::{has_path, is_under, same_path, this_system};
use beautiful_app::paths::reading::System;
use std::path::Path;

#[test]
fn native_project_paths() {
    assert!(path_is_native_project("a.txmh"));
    assert!(path_is_native_project("a.beautiful"));
    assert!(path_is_native_project("A.TXMH"));
    assert!(!path_is_native_project("a.png"));
    assert!(!path_is_native_project("a.jpg"));
    assert!(!path_is_native_project("a.jpeg"));
    assert!(!path_is_native_project("a.psd"));
    assert!(!path_is_native_project("a.webp"));
    assert!(!path_is_native_project("untitled"));
}

#[test]
fn names_of_paths() {
    for p in ["a/b/c.tar.gz", "x.png", "/root/.hidden", "d/noext", "d/name.", "/a/b"] {
        let q = Path::new(p);
        assert_eq!(file_name(p).as_deref(), q.file_name().and_then(|s| s.to_str()));
        assert_eq!(file_stem(p).as_deref(), q.file_stem().and_then(|s| s.to_str()));
        assert_eq!(extension(p).as_deref(), q.extension().and_then(|s| s.to_str()));
        assert_eq!(parent(p), q.parent().map(|d| d.to_str().unwrap().to_string()));
    }
    assert_eq!(file_name("a/b/c.tar.gz").unwrap(), "c.tar.gz");
    assert_eq!(file_stem("a/b/c.tar.gz").unwrap(), "c.tar");
    assert_eq!(parent("/a/b").unwrap(), "/a");
    assert_eq!(join("a", "b.png"), Path::new("a").join("b.png").to_str().unwrap());
}

#[test]
fn windows_paths() {
    let p = "C:\\art.v2\\a.PNG";
    assert_eq!(extension(p).unwrap(), "PNG");
    assert_eq!(format_of(p), "png");
    assert!(!path_is_native_project(p));
    assert!(path_is_native_project("C:\\art\\a.txmh"));
    assert!(path_is_native_project("d:a.beautiful"));
    assert_eq!(ensure_extension(p.to_string(), "png"), p);
    assert_eq!(ensure_extension(p.to_string(), "psd"), "C:\\art.v2\\a.psd");
    assert_eq!(ensure_extension("C:\\art\\a".to_string(), "psd"), "C:\\art\\a.psd");
    assert_eq!(ensure_extension("..".to_string(), "psd"), "..");
    assert_eq!(join("C:\\art", "a"), format!("C:\\art{}a", std::path::MAIN_SEPARATOR));
    for p in ["", "/", "..", "a/..", "a/", "a/.", "./a", ".", "a//b", "/a", "a:b.c", "\\\\s\\t\\u.png"] {
        let q = Path::new(p);
        assert_eq!(file_name(p).as_deref(), q.file_name().and_then(|s| s.to_str()));
        assert_eq!(file_stem(p).as_deref(), q.file_stem().and_then(|s| s.to_str()));
        assert_eq!(extension(p).as_deref(), q.extension().and_then(|s| s.to_str()));
        assert_eq!(parent(p), q.parent().map(|d| d.to_str().unwrap().to_string()));
    }
}

#[test]
fn extensions_are_put_on_once() {
    assert_eq!(ensure_extension("a/b".to_string(), "png"), "a/b.png");
    assert_eq!(ensure_extension("a/b.PNG".to_string(), "png"), "a/b.PNG");
    assert_eq!(ensure_extension("a/b.jpg".to_string(), "png"), "a/b.png");
    let once = ensure_extension("x.bmp".to_string(), "psd");
    assert_eq!(ensure_extension(once.clone(), "psd"), once);
    assert_eq!(format_of("a/B.JPeG"), "jpeg");
}

#[test]
fn formats_and_their_extensions() {
    let all = [
        (ExportFormat::Txmh, "txmh", false),
        (ExportFormat::Psd, "psd", false),
        (ExportFormat::Png, "png", false),
        (ExportFormat::Jpeg, "jpg", false),
        (ExportFormat::Bmp, "bmp", true),
        (ExportFormat::Tga, "tga", true),
        (ExportFormat::Webp, "webp", true),
        (ExportFormat::Gif, "gif", true),
        (ExportFormat::Tiff, "tif", true),
        (ExportFormat::Ico, "ico", true),
    ];
    for (f, ext, simple) in all {
        assert_eq!(f.extension(), ext);
        assert_eq!(f.is_simple_raster(), simple);
        assert!(!f.label().is_empty());
    }
}

#[test]
fn dialog_filters_follow_the_flags() {
    let none = FormatFlags {
        txmh: false,
        psd: false,
        png: false,
        jpeg: false,
        bmp: false,
        tga: false,
        webp: false,
        gif: false,
        tiff: false,
        ico: false,
        svg: false,
    };
    let two = FormatFlags { txmh: true, png: true, ..none };
    let list = open_dialog_filters(&two);
    let all: Vec<String> = list.iter().flat_map(|f| f.extensions.clone()).collect();
    assert!(all.iter().any(|e| e == "txmh"));
    assert!(all.iter().any(|e| e == "beautiful"));
    assert!(all.iter().any(|e| e == "png"));
    assert!(!all.iter().any(|e| e == "psd"));
    assert!(!all.iter().any(|e| e == "jpg"));
}

#[test]
fn paths_are_the_same_by_their_parts() {
    let sys = this_system();
    let list = [
        "", ".", "/", "a", "a/", "./a", "a/b", "a//b", "a/./b", "/a/b", "/a/b/.", "..", "a/..",
        "a/../b", "../a", "a/b/c", "/a", "/.", "//a", "././a",
    ];
    for p in list {
        for q in list {
            let (x, y) = (Path::new(p), Path::new(q));
            assert_eq!(same_path(p, q, sys), x == y, "{p} {q}");
            assert_eq!(is_under(p, q, sys), x.starts_with(y), "{p} {q}");
        }
    }
    let w = System::Windows;
    assert!(same_path("C:\\a/b", "c:/a\\b\\", w));
    assert!(!same_path("C:a", "C:\\a", w));
    assert!(!same_path("\\\\s\\t", "\\s\\t", w));
    assert!(is_under("C:\\a", "C:\\", w) && is_under("C:\\a", "c:", w));
    assert!(!same_path("a\\b", "a/b", System::Unix));
    assert!(has_path(&vec!["x".to_string(), "a/b".to_string()], "a//b", System::Unix));
}

#[test]
fn extensions_behind_separators() {
    assert_eq!(ensure_extension("a.png/".to_string(), "png"), "a.png/");
    assert_eq!(ensure_extension("..png".to_string(), "png"), "..png");
    assert_eq!(ensure_extension("d/a.PNG//".to_string(), "png"), "d/a.PNG//");
    let r = ensure_extension("d/a.jpg/".to_string(), "png");
    assert_eq!(extension(&r).unwrap(), "png");
    assert_eq!(file_stem(&r).unwrap(), "a");
    assert_eq!(parent("a/b/").as_deref(), Some("a"));
}
