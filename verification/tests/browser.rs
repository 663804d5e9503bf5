use beautiful_app::browser::address::{
    address_target, normalize_address_bar, percent_decode_path, place_action, AddressBarAction,
    AddressTarget, PathKind,
};
use beautiful_app::browser::filter::TypeFilters;
use beautiful_app::browser::labels::{format_file_mtime, format_file_size, truncate_name};
use beautiful_app::browser::listing::{scan_dir, FoundEntry, ListEvent};
use beautiful_app::browser::moves::Deletion;
use beautiful_app::browser::open::{bookmarks_from_prefs, BrowserPrefs, PrefsOnDisk};
use beautiful_app::browser::places::{
    build_volumes, default_start_dir, new_folder_name, next_folder_number, start_folder,
    volume_label, Candidate,
};
use beautiful_app::browser::section::{reorder_side_section, SideSection};
use beautiful_app::browser::select::Confirm;
use beautiful_app::browser::state::{BrowserLoc, FileBrowser, ListingItem, SidePlace};
use beautiful_app::browser::thumbs::{DetailEvent, ThumbEvent};
use beautiful_app::browser::view::AddressInput;
use beautiful_app::files::format::{ExportFormat, FormatFlags};
use beautiful_app::files::library::LibraryStore;
use beautiful_app::paths::parts::this_system;
use beautiful_app::paths::reading::System;

fn flags() -> FormatFlags {
    FormatFlags {
        txmh: true,
        psd: true,
        png: true,
        jpeg: true,
        bmp: true,
        tga: true,
        webp: true,
        gif: true,
        tiff: true,
        ico: true,
        svg: true,
    }
}

fn browser() -> FileBrowser {
    let disk = PrefsOnDisk { bookmarks: Vec::new(), recent_dirs: Vec::new() };
    FileBrowser::new(
        BrowserPrefs::empty(),
        &disk,
        flags(),
        "/home".to_string(),
        Vec::new(),
        Vec::new(),
    )
}

fn item(name: &str, is_dir: bool) -> ListingItem {
    ListingItem { name: name.to_string(), path: format!("/home/{name}"), is_dir }
}

fn found(name: &str, is_dir: bool, hidden: bool) -> FoundEntry {
    FoundEntry {
        name: name.to_string(),
        path: format!("/home/{name}"),
        is_dir,
        is_file: !is_dir,
        hidden,
    }
}

fn names(v: &[ListingItem]) -> Vec<&str> {
    v.iter().map(|i| i.name.as_str()).collect()
}

#[test]
fn escapes_are_decoded() {
    assert_eq!(percent_decode_path("a%20b%2fc"), "a b/c");
    assert_eq!(percent_decode_path("100%"), "100%");
    assert_eq!(percent_decode_path("%zz%4"), "%zz%4");
    assert_eq!(percent_decode_path("plain/path.png"), "plain/path.png");
}

#[test]
fn addresses_are_settled() {
    assert_eq!(normalize_address_bar("  \"/a/b\"  ", false), "/a/b");
    assert_eq!(normalize_address_bar("file:///home/a%20b", true), "home\\a b");
    let once = normalize_address_bar(" '/x y' ", false);
    assert_eq!(normalize_address_bar(&once, false), once);
    assert!(matches!(address_target(" Gallery ", false), Ok(AddressTarget::Gallery)));
    match address_target("/a/b", false) {
        Ok(AddressTarget::Place(p)) => assert_eq!(p, "/a/b"),
        _ => panic!("a place"),
    }
    assert!(address_target("   ", false).is_err());
}

#[test]
fn addresses_lead_to_files_and_folders() {
    let act = |kind, parent_is_dir| {
        place_action("/a/b.png".to_string(), kind, parent_is_dir)
    };
    assert!(matches!(act(PathKind::File, true), Ok(AddressBarAction::File(_))));
    assert!(matches!(act(PathKind::Folder, true), Ok(AddressBarAction::Dir(_))));
    assert!(act(PathKind::Nothing, false).is_err());
}

#[test]
fn short_texts() {
    assert_eq!(truncate_name("abcdef", 6), "abcdef");
    assert_eq!(truncate_name("abcdefg", 6), "abcde…");
    assert_eq!(truncate_name("привет", 3), "пр…");
    assert_eq!(truncate_name("ab", 0), "…");
    assert_eq!(format_file_size(1023), "Размер: 1023 Б");
    assert_eq!(format_file_size(1_572_864), "Размер: 1.5 МБ");
    assert_eq!(format_file_size(3 << 30), "Размер: 3.0 ГБ");
    assert_eq!(format_file_mtime(10, 20), "Изменён: сегодня");
    assert_eq!(format_file_mtime(0, 86_400), "Изменён: вчера");
    assert_eq!(format_file_mtime(0, 5 * 86_400), "Изменён: 5 дн. назад");
}

#[test]
fn kinds_that_are_shown() {
    let f = TypeFilters::default();
    assert_eq!(f.summary(), "Folders, TXMH, PSD, Images");
    assert!(f.accepts_format("jpeg") && f.accepts_file("a.TXMH"));
    assert!(!f.accepts_format("txt"));
    let none = TypeFilters { folders: false, txmh: false, psd: false, images: false, show_hidden: false };
    assert_eq!(none.summary(), "Nothing");
    let mut off = flags();
    off.psd = false;
    let c = f.clamp_to_enabled(&off);
    assert!(!c.psd && c.txmh);
    assert_eq!(c.clamp_to_enabled(&off).summary(), c.summary());
}

#[test]
fn folders_come_first() {
    let list = scan_dir(
        &vec![
            found("b.png", false, false),
            found("Zeta", true, false),
            found("A.psd", false, false),
            found("notes.txt", false, false),
            found("alpha", true, false),
            found(".secret", true, true),
        ],
        TypeFilters::default(),
    );
    assert_eq!(names(&list), vec!["alpha", "Zeta", "A.psd", "b.png"]);
}

#[test]
fn only_the_last_listing_shows() {
    let mut b = browser();
    b.navigate_to("/home/x".to_string(), true, true);
    let gen = b.list_gen;
    b.poll_list(ListEvent::Listed {
        gen: gen.wrapping_sub(1),
        cwd: "/home".to_string(),
        entries: vec![item("old", false)],
    });
    assert!(b.entries.is_empty());
    assert!(b.loading);
    b.refresh();
    let gen = b.list_gen;
    b.poll_list(ListEvent::Listed {
        gen,
        cwd: "/home/x".to_string(),
        entries: vec![item("new.png", false)],
    });
    assert_eq!(names(&b.entries), vec!["new.png"]);
    assert!(!b.loading);
    b.search = "NEW".to_string();
    assert_eq!(b.filtered_entries().len(), 1);
    b.search = "zzz".to_string();
    assert_eq!(b.filtered_entries().len(), 0);
}

#[test]
fn back_and_forward() {
    let mut b = browser();
    b.navigate_to("/one".to_string(), true, true);
    b.navigate_to("/two".to_string(), true, true);
    assert!(matches!(b.back_target(), Some(BrowserLoc::Dir(p)) if p == "/one"));
    b.go_back(true);
    assert_eq!(b.cwd, "/one");
    assert!(matches!(b.forward_target(), Some(BrowserLoc::Dir(p)) if p == "/two"));
    b.go_forward(true);
    assert_eq!(b.cwd, "/two");
    assert!(b.forward_target().is_none());
    b.navigate_to("/gone".to_string(), true, false);
    assert_eq!(b.cwd, "/two");
    b.apply_loc(BrowserLoc::Gallery, true, true);
    assert!(b.in_gallery);
    assert_eq!(b.recent_dirs[0], "/two");
    assert_eq!(b.recent_dirs[1], "/one");
}

#[test]
fn bookmarks_are_kept_once() {
    let mut b = browser();
    b.navigate_to("/one".to_string(), true, true);
    b.add_bookmark("One".to_string());
    b.add_bookmark("Again".to_string());
    assert_eq!(b.bookmarks.len(), 1);
    b.remove_bookmark("/one");
    assert!(b.bookmarks.is_empty());
    let mut prefs = BrowserPrefs::empty();
    prefs.bookmarks = vec![
        SidePlace { label: "a".to_string(), path: "/a".to_string() },
        SidePlace { label: "b".to_string(), path: "/b".to_string() },
    ];
    let kept = bookmarks_from_prefs(&prefs, &vec![false, true]);
    assert_eq!(kept.len(), 1);
    assert_eq!(kept[0].path, "/b");
}

#[test]
fn settings_come_back() {
    let mut b = browser();
    b.navigate_to("/one".to_string(), true, true);
    b.add_bookmark("One".to_string());
    b.drop_section(SideSection::Recent, SideSection::Bookmarks);
    let p = b.prefs();
    assert_eq!(p.last_cwd.as_deref(), Some("/one"));
    assert!(!p.last_gallery);
    let disk = PrefsOnDisk {
        bookmarks: vec![true; p.bookmarks.len()],
        recent_dirs: vec![true; p.recent_dirs.len()],
    };
    let again =
        FileBrowser::new(p, &disk, flags(), "/one".to_string(), Vec::new(), Vec::new());
    assert_eq!(again.bookmarks[0].path, "/one");
    assert_eq!(again.section_order, b.section_order);
    assert_eq!(again.recent_dirs, b.recent_dirs);
}

#[test]
fn sections_stay_complete() {
    let fixed = SideSection::sanitize_order(vec![SideSection::Recent, SideSection::Recent]);
    assert_eq!(fixed.len(), 4);
    assert_eq!(fixed[0], SideSection::Recent);
    let mut order = SideSection::default_order();
    let first = order[0];
    let last = order[3];
    assert!(reorder_side_section(&mut order, first, last));
    assert_eq!(order.len(), 4);
    assert!(!reorder_side_section(&mut order, first, first));
}

#[test]
fn clicks_select() {
    let mut b = browser();
    b.entries = vec![item("a", false), item("b", false), item("c", false), item("d", false)];
    b.select("/home/b", false, false);
    b.select("/home/d", false, true);
    assert_eq!(b.selected, vec!["/home/b", "/home/c", "/home/d"]);
    b.select("/home/c", true, false);
    assert_eq!(b.selected, vec!["/home/b", "/home/d"]);
    b.select("/home/a", false, false);
    assert_eq!(b.selected, vec!["/home/a"]);
}

#[test]
fn confirming_a_choice() {
    let mut b = browser();
    b.open = true;
    b.selected = vec!["/home/a.png".to_string(), "/home/dir".to_string()];
    let kinds = vec![PathKind::File, PathKind::Folder];
    assert!(matches!(b.confirm_open(&kinds), Confirm::Done(_)));
    assert!(!b.open);
    assert_eq!(b.take_picked(), Some(vec!["/home/a.png".to_string()]));
    assert_eq!(b.take_picked(), None);
    b.selected = vec!["/home/dir".to_string()];
    assert!(matches!(b.confirm_open(&vec![PathKind::Folder]), Confirm::Enter(p) if p == "/home/dir"));
}

#[test]
fn saving_offers_a_name() {
    let mut b = browser();
    let disk = PrefsOnDisk { bookmarks: Vec::new(), recent_dirs: Vec::new() };
    b.open_for_save(
        &flags(),
        &BrowserPrefs::empty(),
        &disk,
        "/home".to_string(),
        Vec::new(),
        Vec::new(),
        ExportFormat::Png,
    );
    assert!(b.is_save_mode());
    b.offer_save_name("pic.png");
    assert_eq!(b.file_name, "pic.png");
    b.set_save_format(ExportFormat::Jpeg);
    assert_eq!(b.take_save_format(), ExportFormat::Jpeg);
    assert_eq!(b.file_name, "pic.jpg");
    b.save_at("/home/pic.jpg".to_string());
    assert_eq!(b.take_picked(), Some(vec!["/home/pic.jpg".to_string()]));
}

#[test]
fn thumbnails_are_made_in_turn() {
    let mut b = browser();
    b.thumbs.queue = vec!["/a".to_string(), "/b".to_string()];
    let jobs = b.thumbs.kick();
    assert!(!jobs.is_empty());
    let first = jobs[0].path.clone();
    b.thumbs.note(ThumbEvent::Made { path: first.clone() });
    assert!(b.thumbs.ready.contains(&first));
    assert!(!b.thumbs.pending.contains(&first));
}

#[test]
fn only_the_last_preview_shows() {
    let mut b = browser();
    assert!(b.detail.ask("/a"));
    let old = b.detail.gen;
    assert!(b.detail.ask("/b"));
    b.detail.note(DetailEvent::Made { gen: old, path: "/a".to_string() });
    assert!(!b.detail.ready);
    assert!(b.detail.ask("/b"));
    b.detail.note(DetailEvent::Busy);
    let gen = b.detail.gen;
    b.detail.note(DetailEvent::Made { gen, path: "/b".to_string() });
    assert!(b.detail.ready);
    assert!(!b.detail.ask("/b"));
}

#[test]
fn places_of_the_system() {
    assert_eq!(volume_label("C:\\", true).as_deref(), Some("Disk (C:)"));
    let mut there = vec![false; 24];
    there[0] = true;
    let v = build_volumes(true, &there);
    assert_eq!(v.len(), 1);
    assert_eq!(v[0].path, "C:\\");
    let home = Some("/h".to_string());
    assert_eq!(default_start_dir(None, false, home.clone(), true, None), "/h");
    assert_eq!(default_start_dir(Some("/p".to_string()), true, home, true, None), "/p");
    let no = |p: &str| Candidate { path: Some(p.to_string()), is_dir: false };
    let yes = |p: &str| Candidate { path: Some(p.to_string()), is_dir: true };
    assert_eq!(start_folder(no("/l"), yes("/a"), yes("/u"), "/f".to_string()), "/a");
    assert_eq!(start_folder(no("/l"), no("/a"), no("/u"), "/f".to_string()), "/f");
    assert_eq!(new_folder_name(1), "New Folder");
    assert_eq!(new_folder_name(2), "New Folder (2)");
    assert_eq!(next_folder_number(1), Some(2));
}

#[test]
fn the_address_field() {
    let mut b = browser();
    let quiet = AddressInput {
        gained_focus: false,
        has_focus: false,
        lost_focus: false,
        enter: false,
        pasted: false,
        go: false,
    };
    assert!(!b.address_input(quiet, true));
    let go = AddressInput {
        gained_focus: false,
        has_focus: false,
        lost_focus: false,
        enter: false,
        pasted: false,
        go: true,
    };
    assert!(b.address_input(go, true));
    let orders = b.follow_address(Ok(AddressBarAction::Dir("/x".to_string())), None);
    assert_eq!(orders.navigate.as_deref(), Some("/x"));
    assert!(!orders.gallery);
    b.follow_address(Err("нет".to_string()), None);
    assert_eq!(b.error.as_deref(), Some("нет"));
}

#[test]
fn the_gallery_lists_canvases() {
    let mut lib =
        LibraryStore {
            entries: Vec::new(),
            collections: Vec::new(),
            tags: Vec::new(),
            total_app_secs: 0,
            system: this_system(),
        };
    lib.push_library("/d/a.txmh", 5, None, None, 0);
    lib.push_library("/d/b.psd", 9, None, None, 0);
    lib.toggle_pin("/d/a.txmh");
    let mut b = browser();
    b.apply_loc(BrowserLoc::Gallery, true, true);
    b.fill_gallery_entries(&lib, &vec![true, true]);
    assert_eq!(b.entries[0].path, "/d/a.txmh");
    assert_eq!(b.entries[1].path, "/d/b.psd");
    b.fill_gallery_entries(&lib, &vec![true, false]);
    assert_eq!(b.entries.len(), 1);
}

#[test]
fn saving_in_the_folder_shown() {
    let sep = std::path::MAIN_SEPARATOR;
    for (name, to) in [("a", "a.jpg"), ("a.png", "a.jpg"), ("A.JPG", "A.JPG"), ("v1.2", "v1.jpg")] {
        let mut b = browser();
        b.navigate_to("/home/x.y".to_string(), true, true);
        b.save_format = ExportFormat::Jpeg;
        b.open = true;
        b.confirm_save(name);
        assert_eq!(b.picked, vec![format!("/home/x.y{sep}{to}")]);
        assert_eq!(b.file_name, to);
        assert!(!b.open);
    }
    let mut b = browser();
    b.navigate_to("/home".to_string(), true, true);
    b.save_format = ExportFormat::Png;
    b.confirm_save("..");
    assert_eq!(b.picked, vec![format!("/home{sep}..")]);
}

#[test]
fn names_with_colons_do_not_open_the_filter() {
    let list = scan_dir(
        &vec![
            found("b.png", false, false),
            found("notes.txt", false, false),
            found("10:30.txt", false, false),
            found("10:30.png", false, false),
        ],
        TypeFilters::default(),
    );
    assert_eq!(names(&list), vec!["10:30.png", "b.png"]);
}

#[test]
fn going_up() {
    let mut b = browser();
    b.navigate_to("/home/x".to_string(), true, true);
    assert_eq!(b.up_target().as_deref(), Some("/home"));
    b.go_up(true);
    assert_eq!(b.cwd, "/home");
    b.go_up(false);
    assert_eq!(b.cwd, "/home");
    b.navigate_to("/".to_string(), true, true);
    assert_eq!(b.up_target(), None);
    b.go_up(true);
    assert_eq!(b.cwd, "/");
    b.apply_loc(BrowserLoc::Gallery, true, true);
    assert_eq!(b.up_target(), None);
}

#[test]
fn folders_are_deleted_only_when_empty() {
    assert!(FileBrowser::delete_path(PathKind::Folder) == Deletion::EmptyFolder);
    assert!(FileBrowser::delete_path(PathKind::File) == Deletion::File);
    assert!(FileBrowser::delete_path(PathKind::Nothing) == Deletion::Nothing);
}

#[test]
fn one_folder_under_two_spellings() {
    let mut b = browser();
    b.system = System::Unix;
    b.detail.system = System::Unix;
    b.navigate_to("/home/x".to_string(), true, true);
    let places = b.history.len();
    b.navigate_to("/home//x/".to_string(), true, true);
    assert_eq!(b.history.len(), places);
    assert_eq!(b.recent_dirs.iter().filter(|d| d.contains('x')).count(), 1);
    b.add_bookmark_cwd();
    b.navigate_to("/home/./x".to_string(), true, true);
    let marks = b.bookmarks.len();
    b.add_bookmark_cwd();
    assert_eq!(b.bookmarks.len(), marks);
    b.select("/home/x/a.png", true, false);
    b.select("/home/x//a.png", true, false);
    assert!(b.selected.is_empty());
    assert!(b.detail.ask("/home/a.png"));
    assert!(!b.detail.ask("/home//a.png"));
    b.system = System::Windows;
    b.cwd = "C:\\art\\x".to_string();
    assert!(b.volume_on("c:\\"));
    assert!(!b.volume_on("D:\\"));
    assert!(b.place_on("C:/art/x"));
}
