use beautiful_app::drop::{
    is_supported_file, DroppedKind, DroppedPath, FileDropError, FileDropManager, FolderEntry,
};

fn file(p: &str) -> DroppedPath {
    DroppedPath { path: p.to_string(), kind: DroppedKind::File }
}

#[test]
fn files_that_can_be_opened() {
    for p in ["a.txmh", "A.PSD", "x/y.jpeg", "t.tga", "b.beautiful"] {
        assert!(is_supported_file(p), "{p}");
    }
    for p in ["a.txt", "noext", "a.tiff"] {
        assert!(!is_supported_file(p), "{p}");
    }
}

#[test]
fn empty_drop() {
    let e = FileDropManager::validate_paths(&Vec::new()).unwrap_err();
    assert!(matches!(e, FileDropError::Empty));
    assert_eq!(e.message(), "No files in drop");
}

#[test]
fn unsupported_drop() {
    let e = FileDropManager::validate_paths(&vec![file("a.txt")]).unwrap_err();
    assert_eq!(e.message(), "Unsupported file: a.txt");
}

#[test]
fn mixed_drop_keeps_what_opens() {
    let got = FileDropManager::validate_paths(&vec![file("a.txt"), file("b.png"), file("c.psd")]);
    assert_eq!(got.unwrap(), vec!["b.png", "c.psd"]);
}

#[test]
fn dropped_folder_gives_its_files() {
    let folder = DroppedPath {
        path: "d".to_string(),
        kind: DroppedKind::Folder(vec![
            FolderEntry { path: "d/x.png".to_string(), is_file: true },
            FolderEntry { path: "d/sub.png".to_string(), is_file: false },
            FolderEntry { path: "d/y.txt".to_string(), is_file: true },
        ]),
    };
    let got = FileDropManager::validate_paths(&vec![folder]).unwrap();
    assert_eq!(got, vec!["d/x.png"]);
}

#[test]
fn hovering_follows_the_pointer() {
    let mut m = FileDropManager { hovered: Vec::new(), last_hover_at: None, last_status_at: None };
    assert!(m.poll(vec!["a.png".to_string()], Vec::new(), 10).is_none());
    assert!(m.is_hovering());
    assert_eq!(m.hovered_paths(), &vec!["a.png".to_string()]);
    let dropped = vec![
        DroppedPath { path: "a.png".to_string(), kind: DroppedKind::File },
        DroppedPath { path: "C:\\art\\b.TXMH".to_string(), kind: DroppedKind::File },
        DroppedPath { path: "C:\\art\\c.txt".to_string(), kind: DroppedKind::File },
        DroppedPath { path: "gone.png".to_string(), kind: DroppedKind::Unreadable },
    ];
    let got = m.poll(Vec::new(), dropped, 20).unwrap();
    assert_eq!(got, vec!["a.png", "C:\\art\\b.TXMH"]);
    assert!(!m.is_hovering());
    let nothing = vec![DroppedPath { path: "c.txt".to_string(), kind: DroppedKind::File }];
    assert_eq!(m.poll(Vec::new(), nothing, 30), Some(Vec::new()));
}
